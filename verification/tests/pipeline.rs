use aes_file_encrypt::cipher::decrypt_data;
use aes_file_encrypt::cipher::encrypt_data;
use aes_file_encrypt::error::CipherError;
use aes_file_encrypt::error::IoFailure;
use aes_file_encrypt::key::CipherVariant;
use aes_file_encrypt::pipeline::after_key_generation;
use aes_file_encrypt::pipeline::ciphertext_path;
use aes_file_encrypt::pipeline::recovered_path;
use aes_file_encrypt::pipeline::Event;
use aes_file_encrypt::pipeline::FailedStep;
use aes_file_encrypt::pipeline::Request;
use aes_file_encrypt::pipeline::Run;
use aes_file_encrypt::report::Notice;

fn line(text: &str) -> Event {
    Event::Line(text.to_string())
}

#[test]
fn output_paths() {
    assert_eq!(ciphertext_path("notes.txt"), "notes.txt.enc");
    assert_eq!(recovered_path("notes.txt"), "notes.txt_decrypted.txt");
    assert_eq!(ciphertext_path(""), ".enc");
    assert_eq!(recovered_path("dir/a"), "dir/a_decrypted.txt");
}

#[test]
fn run_starts_with_the_key_size_menu() {
    let run = Run::new();
    assert_eq!(run, Run::ChooseKeySize);
    assert_eq!(run.request(), Request::AskKeySize);
    assert!(!run.is_over());
}

#[test]
fn menu_answer_selects_the_variant() {
    let cases = [
        ("1", CipherVariant::Aes128),
        ("2", CipherVariant::Aes192),
        ("3", CipherVariant::Aes256),
    ];
    for (answer, variant) in cases {
        let (run, notice) = Run::new().step(line(answer));
        assert_eq!(run, Run::GenerateKey { variant });
        assert_eq!(notice, None);
        assert_eq!(run.request(), Request::Proceed);
    }
}

#[test]
fn other_menu_answer_defaults_to_128_bits() {
    for answer in ["", "4", "256", "x"] {
        let (run, notice) = Run::new().step(line(answer));
        assert_eq!(run, Run::GenerateKey { variant: CipherVariant::Aes128 });
        assert_eq!(notice, Some(Notice::KeySizeDefaulted));
    }
}

#[test]
fn generated_key_is_reported_in_hex() {
    let key: Vec<u8> = vec![0x00, 0x01, 0x0f, 0x10, 0xab, 0xff, 0x7e, 0x80, 1, 2, 3, 4, 5, 6, 7, 8];
    let (run, notice) = after_key_generation(CipherVariant::Aes128, Ok(key.clone()));
    assert_eq!(run, Run::AcquireIv { key });
    assert_eq!(
        notice,
        Some(Notice::KeyGenerated {
            bits: 128,
            encoded: "00010f10abff7e800102030405060708".to_string(),
        })
    );
}

#[test]
fn failed_key_generation_aborts() {
    let (run, notice) =
        after_key_generation(CipherVariant::Aes256, Err(CipherError::RandomSource));
    assert_eq!(
        run,
        Run::Aborted { step: FailedStep::KeyGeneration, cause: CipherError::RandomSource }
    );
    assert_eq!(notice, None);
    assert!(run.is_over());
    assert_eq!(run.request(), Request::Stop);
}

#[test]
fn key_generation_step_yields_a_key_of_the_variant() {
    let cases = [
        (CipherVariant::Aes128, 16usize),
        (CipherVariant::Aes192, 24),
        (CipherVariant::Aes256, 32),
    ];
    for (variant, len) in cases {
        let (run, notice) = Run::GenerateKey { variant }.step(Event::Resumed);
        match (run, notice) {
            (Run::AcquireIv { key }, Some(Notice::KeyGenerated { bits, encoded })) => {
                assert_eq!(key.len(), len);
                assert_eq!(bits, len * 8);
                let expected: String = key.iter().map(|b| format!("{:02x}", b)).collect();
                assert_eq!(encoded, expected);
            }
            other => panic!("unexpected outcome {:?}", other),
        }
    }
}

#[test]
fn rejected_phrase_is_asked_for_again() {
    let key = vec![1u8; 16];
    let run = Run::AcquireIv { key: key.clone() };
    assert_eq!(run.request(), Request::AskIv);
    let (run, notice) = run.step(line("too short"));
    assert_eq!(run, Run::AcquireIv { key: key.clone() });
    assert_eq!(notice, Some(Notice::IvRejected));
    assert_eq!(run.request(), Request::AskIv);
    let (run, notice) = run.step(line(""));
    assert_eq!(run, Run::AcquireIv { key: key.clone() });
    assert_eq!(notice, Some(Notice::IvRejected));
    let (run, notice) = run.step(line("0123456789abcdef01234567"));
    assert_eq!(run, Run::ReadInputFile { key, iv: b"0123456789abcdef01234567".to_vec() });
    assert_eq!(notice, None);
    assert_eq!(run.request(), Request::ReadInput);
}

#[test]
fn read_failure_aborts_the_run() {
    for kind in [IoFailure::NotFound, IoFailure::IsDirectory, IoFailure::Other] {
        let run = Run::ReadInputFile { key: vec![0u8; 16], iv: vec![0u8; 16] };
        let (run, notice) = run.step(Event::ReadFailed(kind));
        assert_eq!(run, Run::Aborted { step: FailedStep::FileRead, cause: CipherError::Io(kind) });
        assert_eq!(notice, None);
        assert!(run.is_over());
    }
}

#[test]
fn write_failure_aborts_the_run() {
    let key = vec![0u8; 16];
    let iv = vec![0u8; 16];
    let plaintext = b"hello".to_vec();
    let ciphertext = encrypt_data(&plaintext, &key, &iv).unwrap();
    let run = Run::PersistCiphertext {
        key,
        iv,
        path: "f".to_string(),
        plaintext: plaintext.clone(),
        ciphertext,
    };
    let (run, notice) = run.step(Event::WriteFailed(IoFailure::Other));
    assert_eq!(
        run,
        Run::Aborted { step: FailedStep::FileWrite, cause: CipherError::Io(IoFailure::Other) }
    );
    assert_eq!(notice, None);
    let run = Run::PersistRecoveredPlaintext {
        path: "f".to_string(),
        plaintext: plaintext.clone(),
        recovered: plaintext,
    };
    let (run, _) = run.step(Event::WriteFailed(IoFailure::IsDirectory));
    assert_eq!(
        run,
        Run::Aborted {
            step: FailedStep::FileWrite,
            cause: CipherError::Io(IoFailure::IsDirectory),
        }
    );
}

#[test]
fn whole_run_from_file_to_recovered_plaintext() {
    let key = vec![0u8; 16];
    let iv = b"0123456789abcdef".to_vec();
    let run = Run::ReadInputFile { key: key.clone(), iv: iv.clone() };
    let (run, notice) =
        run.step(Event::InputRead { path: "note.txt".to_string(), content: b"hello".to_vec() });
    assert_eq!(notice, Some(Notice::InputRead { size: 5 }));
    assert_eq!(
        run,
        Run::Encrypt {
            key: key.clone(),
            iv: iv.clone(),
            path: "note.txt".to_string(),
            plaintext: b"hello".to_vec(),
        }
    );
    assert_eq!(run.request(), Request::Proceed);

    let (run, notice) = run.step(Event::Resumed);
    assert_eq!(notice, None);
    let expected = encrypt_data(b"hello", &key, &iv).unwrap();
    assert_eq!(expected.len(), 16);
    assert_eq!(
        run.request(),
        Request::WriteFile { path: "note.txt.enc".to_string(), content: expected.clone() }
    );

    let (run, notice) = run.step(Event::Written);
    assert_eq!(notice, Some(Notice::CiphertextSaved { path: "note.txt.enc".to_string() }));
    assert_eq!(
        run,
        Run::Decrypt {
            key: key.clone(),
            iv: iv.clone(),
            path: "note.txt".to_string(),
            plaintext: b"hello".to_vec(),
            ciphertext: expected.clone(),
        }
    );
    assert_eq!(run.request(), Request::Proceed);

    let (run, notice) = run.step(Event::Resumed);
    assert_eq!(notice, Some(Notice::PlaintextRecovered { size: 5 }));
    assert_eq!(
        run,
        Run::PersistRecoveredPlaintext {
            path: "note.txt".to_string(),
            plaintext: b"hello".to_vec(),
            recovered: b"hello".to_vec(),
        }
    );
    assert_eq!(
        run.request(),
        Request::WriteFile {
            path: "note.txt_decrypted.txt".to_string(),
            content: b"hello".to_vec(),
        }
    );
    assert_eq!(decrypt_data(&expected, &key, &iv), Ok(b"hello".to_vec()));

    let (run, notice) = run.step(Event::Written);
    assert_eq!(
        notice,
        Some(Notice::RecoveredSaved { path: "note.txt_decrypted.txt".to_string() })
    );
    assert_eq!(run, Run::Done);
    assert!(run.is_over());
    assert_eq!(run.request(), Request::Stop);
}

#[test]
fn run_from_the_menu_on() {
    let (run, _) = Run::new().step(line("3"));
    let (run, notice) = run.step(Event::Resumed);
    assert!(matches!(notice, Some(Notice::KeyGenerated { bits: 256, .. })));
    let (run, _) = run.step(line("0123456789abcdef0123456789abcdef"));
    let (run, _) = run.step(Event::InputRead { path: "p".to_string(), content: vec![1, 2, 3] });
    let (run, _) = run.step(Event::Resumed);
    let (run, _) = run.step(Event::Written);
    let (run, _) = run.step(Event::Resumed);
    match &run {
        Run::PersistRecoveredPlaintext { recovered, plaintext, .. } => {
            assert_eq!(recovered, &vec![1u8, 2, 3]);
            assert_eq!(plaintext, recovered);
        }
        other => panic!("unexpected stage {:?}", other),
    }
    let (run, _) = run.step(Event::Written);
    assert_eq!(run, Run::Done);
}

#[test]
fn encryption_with_a_bad_key_aborts() {
    let run = Run::Encrypt {
        key: vec![0u8; 5],
        iv: vec![0u8; 16],
        path: "p".to_string(),
        plaintext: b"hello".to_vec(),
    };
    let (run, notice) = run.step(Event::Resumed);
    assert_eq!(
        run,
        Run::Aborted { step: FailedStep::Encryption, cause: CipherError::UnsupportedKeySize }
    );
    assert_eq!(notice, None);
}

#[test]
fn self_check_of_a_malformed_ciphertext_aborts() {
    let run = Run::Decrypt {
        key: vec![0u8; 16],
        iv: vec![0u8; 16],
        path: "p".to_string(),
        plaintext: b"hello".to_vec(),
        ciphertext: vec![0u8; 7],
    };
    let (run, notice) = run.step(Event::Resumed);
    assert_eq!(
        run,
        Run::Aborted { step: FailedStep::Decryption, cause: CipherError::MalformedCiphertext }
    );
    assert_eq!(notice, None);
}

#[test]
fn event_that_was_not_asked_for_changes_nothing() {
    let (run, notice) = Run::new().step(Event::Written);
    assert_eq!(run, Run::ChooseKeySize);
    assert_eq!(notice, None);
    let (run, notice) = Run::new().step(Event::Resumed);
    assert_eq!(run, Run::ChooseKeySize);
    assert_eq!(notice, None);
    let stage = Run::ReadInputFile { key: vec![0u8; 16], iv: vec![0u8; 16] };
    let (run, notice) = stage.step(line("note.txt"));
    assert_eq!(run, Run::ReadInputFile { key: vec![0u8; 16], iv: vec![0u8; 16] });
    assert_eq!(notice, None);
}

#[test]
fn ended_run_stays_ended() {
    let (run, notice) = Run::Done.step(line("1"));
    assert_eq!(run, Run::Done);
    assert_eq!(notice, None);
    let aborted = Run::Aborted { step: FailedStep::FileRead, cause: CipherError::Io(IoFailure::NotFound) };
    let (run, notice) = aborted.step(Event::Resumed);
    assert_eq!(
        run,
        Run::Aborted { step: FailedStep::FileRead, cause: CipherError::Io(IoFailure::NotFound) }
    );
    assert_eq!(notice, None);
}
