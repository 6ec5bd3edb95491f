use aes_gcm::aead::Aead;
use aes_gcm::{Aes256Gcm, Key, KeyInit, Nonce};
use base64::engine::general_purpose::STANDARD;
use base64::Engine;
use newsletter_api::challenge::token::{
    compare_answer, join_parts, plaintext_from_bytes, split_parts, token_from_sealed,
};
use newsletter_api::challenge::{Base64Challenger, CaptchaResponse, ChallengeError, SecretKey};

const IMAGE: &str = "iVBORw0KGgoAAAANSUhEUgAAAAUAAAAFCAYAAACNbyblAAAAHElEQVQI";

fn key(text: &str) -> SecretKey {
    SecretKey::new(text.as_bytes().to_vec()).expect("Creating key.")
}

fn challenge<'a>(secret: &'a SecretKey, answer: &str) -> Base64Challenger<'a> {
    Base64Challenger::new(secret, IMAGE.to_string(), answer.to_string())
}

fn token_of(bytes: &[u8]) -> String {
    STANDARD.encode(bytes)
}

#[test]
fn secret_must_be_32_bytes_in_length() {
    let secret = SecretKey::new("W81lMp7E1J0569L2Z1ERpeX8XDiYn11".as_bytes().to_vec());

    assert!(secret.is_err());
}

#[test]
fn can_create_challenge_image() {
    let secret = SecretKey::new("w8ar9i496zulwEayDG828Y67i09IfwWC".as_bytes().to_vec());

    assert!(secret.is_ok());
    let secret = secret.unwrap();
    let challenge = Base64Challenger::new(&secret, IMAGE.to_string(), "AB3F7Q".to_string());
    assert_eq!(challenge.base64_image, IMAGE);
    assert_eq!(challenge.answer(), "AB3F7Q");
}

#[test]
fn can_encrypt_challenge() {
    let secret = key("njE17BV5QLYO82V3UWoa22ZwwdiD40l2");
    let challenge = challenge(&secret, "k3Yw9Z");

    assert!(challenge.encrypt().is_ok());
}

#[test]
fn can_decrypt_challenge() {
    let secret = key("tNuS550e9os25IFZxw518GlNSK3ouiY1");
    let challenge = challenge(&secret, "k3Yw9Z");
    let encrypted = challenge.encrypt().unwrap();
    let decrypted = Base64Challenger::decrypt(&encrypted, challenge.secret()).unwrap();

    assert_eq!(*challenge.answer(), decrypted);
}

#[test]
fn can_verify_correct_answer() {
    let secret = key("7LphV05vqV3oxYj831j97H3vs2g5wP89");
    let challenge = challenge(&secret, "k3Yw9Z");
    let encrypted = challenge.encrypt().unwrap();

    assert!(Base64Challenger::verify(
        &encrypted,
        challenge.answer().clone(),
        challenge.secret()
    )
    .is_ok());
}

#[test]
fn can_reject_incorrect_answer() {
    let secret = key("Zh20YpU56L5Ces0VffGl31rb2Km4k7Gr");
    let challenge = challenge(&secret, "k3Yw9Z");
    let encrypted = challenge.encrypt().unwrap();

    assert!(Base64Challenger::verify(
        &encrypted,
        String::from("badanswer"),
        challenge.secret()
    )
    .is_err());
}

#[test]
fn key_of_any_other_length_is_refused() {
    for len in [0usize, 1, 16, 31, 33, 64] {
        let result = SecretKey::new(vec![7u8; len]);
        assert!(matches!(result, Err(ChallengeError::InvalidKeyLength)));
    }
}

#[test]
fn key_of_32_bytes_is_kept_as_it_is() {
    let bytes: Vec<u8> = (0u8..32).collect();
    let secret = SecretKey::new(bytes.clone()).unwrap();

    assert_eq!(secret.expose(), bytes.as_slice());
}

#[test]
fn token_is_nonce_then_ciphertext_then_tag() {
    let secret = SecretKey::new(vec![0u8; 32]).unwrap();
    let empty = Base64Challenger::new(&secret, String::new(), String::new());
    let zeros = Base64Challenger::new(&secret, String::new(), "\0".repeat(16));

    assert_eq!(
        empty.encrypt_with_nonce(&[0u8; 12]).unwrap(),
        "AAAAAAAAAAAAAAAAUw+K+8dFNrmpY7TxxMtziw=="
    );
    assert_eq!(
        zeros.encrypt_with_nonce(&[0u8; 12]).unwrap(),
        "AAAAAAAAAAAAAAAAzqdAPU1ga24HTsXTuvOdGNDRyKeZmWvwJluYtdSKuRk="
    );
}

#[test]
fn token_under_a_given_nonce_is_fixed() {
    let secret = key("w8ar9i496zulwEayDG828Y67i09IfwWC");
    let nonce = [1u8, 2, 3, 4, 5, 6, 7, 8, 9, 10, 11, 12];

    assert_eq!(
        challenge(&secret, "AB3F7Q").encrypt_with_nonce(&nonce).unwrap(),
        "AQIDBAUGBwgJCgsMcK5OD8wqVHbBYUdZ8uKJBVZUKr7sjQ=="
    );
    assert_eq!(
        challenge(&secret, "grüße ☃").encrypt_with_nonce(&nonce).unwrap(),
        "AQIDBAUGBwgJCgsMVp6+9TjkwNuMJDfViuAGEbeoWWMnaUpX3uJT"
    );
}

#[test]
fn known_token_decrypts_to_its_answer() {
    let secret = key("w8ar9i496zulwEayDG828Y67i09IfwWC");

    assert_eq!(
        Base64Challenger::decrypt("AQIDBAUGBwgJCgsMcK5OD8wqVHbBYUdZ8uKJBVZUKr7sjQ==", &secret),
        Ok("AB3F7Q".to_string())
    );
    assert_eq!(
        Base64Challenger::decrypt(
            "AQIDBAUGBwgJCgsMVp6+9TjkwNuMJDfViuAGEbeoWWMnaUpX3uJT",
            &secret
        ),
        Ok("grüße ☃".to_string())
    );
}

#[test]
fn token_holds_28_bytes_more_than_the_answer() {
    let secret = key("w8ar9i496zulwEayDG828Y67i09IfwWC");
    for answer in ["", "a", "AB3F7Q", "grüße ☃"] {
        let token = challenge(&secret, answer).encrypt().unwrap();
        let data = STANDARD.decode(&token).unwrap();
        assert_eq!(data.len(), 12 + answer.len() + 16);
    }
}

#[test]
fn round_trip_gives_the_answer_back() {
    let secret = key("tNuS550e9os25IFZxw518GlNSK3ouiY1");
    for answer in ["", "AB3F7Q", "with spaces and\nlines", "grüße ☃ 你好", "\0\0"] {
        let token = challenge(&secret, answer).encrypt().unwrap();
        assert_eq!(
            Base64Challenger::decrypt(&token, &secret),
            Ok(answer.to_string())
        );
    }
}

#[test]
fn flipping_any_bit_of_a_token_is_detected() {
    let secret = key("tNuS550e9os25IFZxw518GlNSK3ouiY1");
    let token = challenge(&secret, "AB3F7Q").encrypt().unwrap();
    let data = STANDARD.decode(&token).unwrap();

    for index in 0..data.len() {
        for bit in 0..8 {
            let mut altered = data.clone();
            altered[index] ^= 1 << bit;
            assert_eq!(
                Base64Challenger::decrypt(&token_of(&altered), &secret),
                Err(ChallengeError::DecryptionFailed)
            );
        }
    }
}

#[test]
fn corrupting_any_character_of_a_token_is_detected() {
    let secret = key("tNuS550e9os25IFZxw518GlNSK3ouiY1");
    let token = challenge(&secret, "AB3F7Q").encrypt().unwrap();

    for index in 0..token.len() {
        let mut altered = token.clone().into_bytes();
        altered[index] = if altered[index] == b'A' { b'B' } else { b'A' };
        let altered = String::from_utf8(altered).unwrap();
        let result = Base64Challenger::decrypt(&altered, &secret);
        assert!(matches!(
            result,
            Err(ChallengeError::DecryptionFailed) | Err(ChallengeError::MalformedToken)
        ));
    }
}

#[test]
fn truncated_token_is_detected() {
    let secret = key("tNuS550e9os25IFZxw518GlNSK3ouiY1");
    let token = challenge(&secret, "AB3F7Q").encrypt().unwrap();
    let data = STANDARD.decode(&token).unwrap();

    for len in 0..data.len() {
        let expected = if len < 12 {
            ChallengeError::MalformedToken
        } else {
            ChallengeError::DecryptionFailed
        };
        assert_eq!(
            Base64Challenger::decrypt(&token_of(&data[..len]), &secret),
            Err(expected)
        );
    }
}

#[test]
fn another_key_does_not_open_a_token() {
    let first = key("tNuS550e9os25IFZxw518GlNSK3ouiY1");
    let second = key("tNuS550e9os25IFZxw518GlNSK3ouiY2");
    let token = challenge(&first, "AB3F7Q").encrypt().unwrap();

    assert_eq!(
        Base64Challenger::decrypt(&token, &second),
        Err(ChallengeError::DecryptionFailed)
    );
    assert_eq!(
        Base64Challenger::verify(&token, "AB3F7Q".to_string(), &second),
        Err(ChallengeError::DecryptionFailed)
    );
}

#[test]
fn two_tokens_for_one_answer_differ() {
    let secret = key("njE17BV5QLYO82V3UWoa22ZwwdiD40l2");
    let challenge = challenge(&secret, "AB3F7Q");
    let first = challenge.encrypt().unwrap();
    let second = challenge.encrypt().unwrap();

    assert_ne!(first, second);
    assert_ne!(
        STANDARD.decode(&first).unwrap()[..12],
        STANDARD.decode(&second).unwrap()[..12]
    );
    assert_eq!(Base64Challenger::decrypt(&first, &secret), Ok("AB3F7Q".to_string()));
    assert_eq!(Base64Challenger::decrypt(&second, &secret), Ok("AB3F7Q".to_string()));
}

#[test]
fn verify_accepts_the_answer_and_nothing_else() {
    let secret = key("7LphV05vqV3oxYj831j97H3vs2g5wP89");
    let token = challenge(&secret, "AB3F7Q").encrypt().unwrap();

    assert_eq!(
        Base64Challenger::verify(&token, "AB3F7Q".to_string(), &secret),
        Ok(())
    );
    for attempt in ["", "AB3F7", "AB3F7Q ", " AB3F7Q", "AB3F7q", "ab3f7q", "Q7F3BA"] {
        assert_eq!(
            Base64Challenger::verify(&token, attempt.to_string(), &secret),
            Err(ChallengeError::AnswerMismatch)
        );
    }
}

#[test]
fn end_to_end() {
    let secret = key("Zh20YpU56L5Ces0VffGl31rb2Km4k7Gr");
    let token = challenge(&secret, "AB3F7Q").encrypt().unwrap();

    assert_eq!(Base64Challenger::decrypt(&token, &secret), Ok("AB3F7Q".to_string()));
    assert_eq!(
        Base64Challenger::verify(&token, "AB3F7Q".to_string(), &secret),
        Ok(())
    );
    assert_eq!(
        Base64Challenger::verify(&token, "ab3f7q".to_string(), &secret),
        Err(ChallengeError::AnswerMismatch)
    );
    let corrupted = format!("{}x", token);
    assert!(Base64Challenger::verify(&corrupted, "AB3F7Q".to_string(), &secret).is_err());
}

#[test]
fn eleven_bytes_are_malformed() {
    let secret = key("Zh20YpU56L5Ces0VffGl31rb2Km4k7Gr");

    assert_eq!(token_of(&[0u8; 11]), "AAAAAAAAAAAAAAA=");
    assert_eq!(
        Base64Challenger::decrypt("AAAAAAAAAAAAAAA=", &secret),
        Err(ChallengeError::MalformedToken)
    );
    assert_eq!(
        Base64Challenger::decrypt("", &secret),
        Err(ChallengeError::MalformedToken)
    );
}

#[test]
fn twelve_bytes_hold_a_nonce_and_no_tag() {
    let secret = key("Zh20YpU56L5Ces0VffGl31rb2Km4k7Gr");

    assert_eq!(
        Base64Challenger::decrypt(&token_of(&[0u8; 12]), &secret),
        Err(ChallengeError::DecryptionFailed)
    );
    assert_eq!(
        Base64Challenger::decrypt(&token_of(&[0u8; 27]), &secret),
        Err(ChallengeError::DecryptionFailed)
    );
}

#[test]
fn text_that_is_not_base64_is_malformed() {
    let secret = key("Zh20YpU56L5Ces0VffGl31rb2Km4k7Gr");

    assert_eq!(
        Base64Challenger::decrypt("not-valid-base64!!", &secret),
        Err(ChallengeError::MalformedToken)
    );
    assert_eq!(
        Base64Challenger::verify("not-valid-base64!!", "AB3F7Q".to_string(), &secret),
        Err(ChallengeError::MalformedToken)
    );
    assert_eq!(
        Base64Challenger::decrypt("AAAAAAAAAAAAAAAAUw+K+8dFNrmpY7TxxMtziw", &secret),
        Err(ChallengeError::MalformedToken)
    );
}

#[test]
fn sealed_bytes_that_are_not_text_are_invalid_plaintext() {
    let secret = key("w8ar9i496zulwEayDG828Y67i09IfwWC");

    assert_eq!(
        Base64Challenger::decrypt("AQIDBAUGBwgJCgsMzhK2LW1F9cSlttWodL0pzO//", &secret),
        Err(ChallengeError::InvalidPlaintext)
    );

    let cipher = Aes256Gcm::new(Key::<Aes256Gcm>::from_slice(secret.expose()));
    let nonce = [9u8; 12];
    let sealed = cipher
        .encrypt(Nonce::from_slice(&nonce), &[0xc3u8, 0x28][..])
        .unwrap();
    let token = token_from_sealed(&nonce, &sealed).unwrap();
    assert_eq!(
        Base64Challenger::decrypt(&token, &secret),
        Err(ChallengeError::InvalidPlaintext)
    );
    assert_eq!(
        Base64Challenger::verify(&token, "AB3F7Q".to_string(), &secret),
        Err(ChallengeError::InvalidPlaintext)
    );
}

#[test]
fn parts_are_joined_and_split_at_the_twelfth_byte() {
    let nonce = [1u8, 2, 3, 4, 5, 6, 7, 8, 9, 10, 11, 12];
    let sealed = [200u8, 201, 202];
    let data = join_parts(&nonce, &sealed);

    assert_eq!(data, vec![1u8, 2, 3, 4, 5, 6, 7, 8, 9, 10, 11, 12, 200, 201, 202]);
    let (front, back) = split_parts(&data).unwrap();
    assert_eq!(front, &nonce[..]);
    assert_eq!(back, &sealed[..]);

    let (front, back) = split_parts(&nonce).unwrap();
    assert_eq!(front, &nonce[..]);
    assert!(back.is_empty());

    assert_eq!(split_parts(&nonce[..11]), Err(ChallengeError::MalformedToken));
    assert_eq!(split_parts(&[]), Err(ChallengeError::MalformedToken));
}

#[test]
fn token_from_sealed_is_base64_of_nonce_and_message() {
    let nonce = [0u8; 12];
    let sealed = [
        0x53u8, 0x0f, 0x8a, 0xfb, 0xc7, 0x45, 0x36, 0xb9, 0xa9, 0x63, 0xb4, 0xf1, 0xc4, 0xcb, 0x73,
        0x8b,
    ];

    assert_eq!(
        token_from_sealed(&nonce, &sealed),
        Ok("AAAAAAAAAAAAAAAAUw+K+8dFNrmpY7TxxMtziw==".to_string())
    );
    assert_eq!(
        token_from_sealed(&nonce, &[]),
        Ok("AAAAAAAAAAAAAAAA".to_string())
    );
}

#[test]
fn plaintext_must_be_utf8() {
    assert_eq!(
        plaintext_from_bytes("grüße".as_bytes().to_vec()),
        Ok("grüße".to_string())
    );
    assert_eq!(plaintext_from_bytes(Vec::new()), Ok(String::new()));
    assert_eq!(
        plaintext_from_bytes(vec![0x41, 0xff]),
        Err(ChallengeError::InvalidPlaintext)
    );
    assert_eq!(
        plaintext_from_bytes(vec![0xed, 0xa0, 0x80]),
        Err(ChallengeError::InvalidPlaintext)
    );
}

#[test]
fn answers_are_compared_exactly() {
    let answer = "AB3F7Q".to_string();

    assert_eq!(compare_answer(&answer, &"AB3F7Q".to_string()), Ok(()));
    assert_eq!(
        compare_answer(&answer, &"ab3f7q".to_string()),
        Err(ChallengeError::AnswerMismatch)
    );
    assert_eq!(
        compare_answer(&answer, &String::new()),
        Err(ChallengeError::AnswerMismatch)
    );
    assert_eq!(compare_answer(&String::new(), &String::new()), Ok(()));
}

#[test]
fn issuing_gives_image_and_token() {
    let secret = key("w8ar9i496zulwEayDG828Y67i09IfwWC");
    let challenge = challenge(&secret, "AB3F7Q");
    let response = challenge.issue().unwrap();

    assert_eq!(
        response.challenge_image,
        format!("data:image/png;base64,{}", IMAGE)
    );
    assert_eq!(
        Base64Challenger::verify(&response.challenge, "AB3F7Q".to_string(), &secret),
        Ok(())
    );
    assert_ne!(response.challenge, challenge.issue().unwrap().challenge);
}

#[test]
fn response_holds_the_token_unchanged() {
    let response = CaptchaResponse::new("aGVsbG8=", "dG9rZW4=".to_string());

    assert_eq!(response.challenge_image, "data:image/png;base64,aGVsbG8=");
    assert_eq!(response.challenge, "dG9rZW4=");
}

#[test]
fn each_failure_has_its_own_message() {
    assert_eq!(
        ChallengeError::InvalidKeyLength.message(),
        "Secret must be 32 bytes in length."
    );
    assert_eq!(
        ChallengeError::MalformedToken.message(),
        "Challenge is not base64 or is too short."
    );
    assert_eq!(
        ChallengeError::DecryptionFailed.message(),
        "Failed to decrypt answer."
    );
    assert_eq!(
        ChallengeError::InvalidPlaintext.message(),
        "Failed to convert answer to string."
    );
    assert_eq!(ChallengeError::AnswerMismatch.message(), "Incorrect answer.");
    assert_eq!(
        ChallengeError::EncryptionFailed.message(),
        "Failed to encrypt challenge."
    );
}
