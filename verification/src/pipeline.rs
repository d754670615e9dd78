//! The run from key size to recovered plaintext, as a state machine.
//!
//! A run passes through its stages in a fixed order:
//! choose the key size, generate the key, acquire the initialization vector,
//! read the input file, encrypt, persist the ciphertext, decrypt it again as a
//! self-check, persist what was recovered, done.  The machine decides; its
//! driver does the outside work.  For the stage a run is in, `request` says
//! what the driver has to do, and `step` takes what came of it and moves the
//! run on by one stage.  Any failure but a rejected vector phrase ends the run.

use vstd::prelude::*;
use vstd::slice::slice_to_vec;
use vstd::utf8::encode_utf8;
use crate::cipher::decrypt_data;
use crate::cipher::decrypted;
use crate::cipher::encrypt_data;
use crate::cipher::encrypted;
use crate::error::CipherError;
use crate::error::IoFailure;
use crate::key::get_random_key;
use crate::key::valid_iv_len;
use crate::key::valid_key_len;
use crate::key::validate_iv;
use crate::key::variant_for_choice;
use crate::key::CipherVariant;
use crate::report::hex_encode;
use crate::report::hex_encoded;
use crate::report::Notice;

verus! {

/// The part of the run in which a failure happened.
#[derive(Clone, Copy, Debug, PartialEq, Eq, Structural)]
pub enum FailedStep {
    /// The key could not be generated.
    KeyGeneration,
    /// The input file could not be read.
    FileRead,
    /// The plaintext could not be encrypted.
    Encryption,
    /// The ciphertext could not be decrypted again.
    Decryption,
    /// An output file could not be written.
    FileWrite,
}

/// A run: the stage it is in, with the data that the stage works on.
#[derive(Debug, PartialEq, Eq)]
pub enum Run {
    /// Waiting for the answer to the key size menu.
    ChooseKeySize,
    /// About to generate a key for `variant`.
    GenerateKey { variant: CipherVariant },
    /// Waiting for a phrase to use as initialization vector.
    AcquireIv { key: Vec<u8> },
    /// Waiting for the input file's path and content.
    ReadInputFile { key: Vec<u8>, iv: Vec<u8> },
    /// About to encrypt `plaintext`.
    Encrypt { key: Vec<u8>, iv: Vec<u8>, path: String, plaintext: Vec<u8> },
    /// Waiting for `ciphertext` to be written.
    PersistCiphertext {
        key: Vec<u8>,
        iv: Vec<u8>,
        path: String,
        plaintext: Vec<u8>,
        ciphertext: Vec<u8>,
    },
    /// About to decrypt `ciphertext` again.
    Decrypt { key: Vec<u8>, iv: Vec<u8>, path: String, plaintext: Vec<u8>, ciphertext: Vec<u8> },
    /// Waiting for `recovered` to be written.
    PersistRecoveredPlaintext { path: String, plaintext: Vec<u8>, recovered: Vec<u8> },
    /// Both files are written.
    Done,
    /// The run was given up in `step` because of `cause`.
    Aborted { step: FailedStep, cause: CipherError },
}

/// What the driver has to do for the stage that a run is in.
#[derive(Debug, PartialEq, Eq)]
pub enum Request {
    /// Show the key size menu and answer with `Event::Line`.
    AskKeySize,
    /// Ask for the vector phrase and answer with `Event::Line`.
    AskIv,
    /// Ask for the input file's path, read the file, and answer with
    /// `Event::InputRead` or `Event::ReadFailed`.
    ReadInput,
    /// Create or truncate the file at `path`, write `content`, and answer with
    /// `Event::Written` or `Event::WriteFailed`.
    WriteFile { path: String, content: Vec<u8> },
    /// Nothing from outside is needed: answer with `Event::Resumed`.
    Proceed,
    /// The run is over.
    Stop,
}

/// What came of the driver's work.
#[derive(Debug, PartialEq, Eq)]
pub enum Event {
    /// A line the user entered, without surrounding whitespace.
    Line(String),
    /// The input file at `path` holds `content`.
    InputRead { path: String, content: Vec<u8> },
    /// The input file could not be read.
    ReadFailed(IoFailure),
    /// The file was written.
    Written,
    /// The file could not be written.
    WriteFailed(IoFailure),
    /// Nothing was asked for.
    Resumed,
}

/// Where the ciphertext of the file at `path` is written.
pub open spec fn encrypted_path(path: Seq<char>) -> Seq<char> {
    path + ".enc"@
}

/// Where the recovered plaintext of the file at `path` is written.
pub open spec fn decrypted_path(path: Seq<char>) -> Seq<char> {
    path + "_decrypted.txt"@
}

/// The position of a stage in the order of the run; an aborted run has none.
pub open spec fn stage_index(run: Run) -> Option<nat> {
    match run {
        Run::ChooseKeySize => Some(0),
        Run::GenerateKey { .. } => Some(1),
        Run::AcquireIv { .. } => Some(2),
        Run::ReadInputFile { .. } => Some(3),
        Run::Encrypt { .. } => Some(4),
        Run::PersistCiphertext { .. } => Some(5),
        Run::Decrypt { .. } => Some(6),
        Run::PersistRecoveredPlaintext { .. } => Some(7),
        Run::Done => Some(8),
        Run::Aborted { .. } => None,
    }
}

/// The data of a run fits together: key and vector have valid lengths, a
/// ciphertext decrypts to the plaintext it was made from, and what was
/// recovered is that plaintext.
pub open spec fn consistent(run: Run) -> bool {
    match run {
        Run::AcquireIv { key } => valid_key_len(key@.len()),
        Run::ReadInputFile { key, iv } => valid_key_len(key@.len()) && valid_iv_len(iv@.len()),
        Run::Encrypt { key, iv, .. } => valid_key_len(key@.len()) && valid_iv_len(iv@.len()),
        Run::PersistCiphertext { key, iv, plaintext, ciphertext, .. } => decrypted(
            ciphertext@,
            key@,
            iv@,
        ) == Ok::<Seq<u8>, CipherError>(plaintext@),
        Run::Decrypt { key, iv, plaintext, ciphertext, .. } => decrypted(ciphertext@, key@, iv@)
            == Ok::<Seq<u8>, CipherError>(plaintext@),
        Run::PersistRecoveredPlaintext { plaintext, recovered, .. } => recovered@ == plaintext@,
        _ => true,
    }
}

/// What `request` returns for a run.
pub open spec fn requested(run: Run, request: Request) -> bool {
    match run {
        Run::ChooseKeySize => request == Request::AskKeySize,
        Run::AcquireIv { .. } => request == Request::AskIv,
        Run::ReadInputFile { .. } => request == Request::ReadInput,
        Run::PersistCiphertext { path, ciphertext, .. } => {
            &&& request matches Request::WriteFile { path: target, content }
            &&& target@ == encrypted_path(path@)
            &&& content@ == ciphertext@
        },
        Run::PersistRecoveredPlaintext { path, recovered, .. } => {
            &&& request matches Request::WriteFile { path: target, content }
            &&& target@ == decrypted_path(path@)
            &&& content@ == recovered@
        },
        Run::GenerateKey { .. } | Run::Encrypt { .. } | Run::Decrypt { .. } => request
            == Request::Proceed,
        Run::Done | Run::Aborted { .. } => request == Request::Stop,
    }
}

/// The run after key generation came out as `outcome`.
pub open spec fn key_generated(
    variant: CipherVariant,
    outcome: Result<Vec<u8>, CipherError>,
    post: Run,
    notice: Option<Notice>,
) -> bool {
    match outcome {
        Ok(generated) => {
            &&& post matches Run::AcquireIv { key }
            &&& key@ == generated@
            &&& notice matches Some(Notice::KeyGenerated { bits, encoded })
            &&& bits == 8 * variant.spec_key_len()
            &&& encoded@ == hex_encoded(generated@)
        },
        Err(cause) => {
            &&& post == (Run::Aborted { step: FailedStep::KeyGeneration, cause })
            &&& notice is None
        },
    }
}

/// `step` may take a run from `pre` to `post` on `event`, reporting `notice`.
///
/// All of it is determined by `pre` and `event`, but for the bytes of a
/// generated key and for whether the random source delivers them.
pub open spec fn transition(pre: Run, event: Event, post: Run, notice: Option<Notice>) -> bool {
    match (pre, event) {
        (Run::ChooseKeySize, Event::Line(choice)) => match variant_for_choice(choice@) {
            Some(variant) => post == (Run::GenerateKey { variant }) && notice is None,
            None => post == (Run::GenerateKey { variant: CipherVariant::Aes128 }) && notice
                == Some(Notice::KeySizeDefaulted),
        },
        (Run::GenerateKey { variant }, Event::Resumed) => {
            ||| exists|generated: Vec<u8>|
                generated@.len() == variant.spec_key_len() && #[trigger] key_generated(
                    variant,
                    Ok(generated),
                    post,
                    notice,
                )
            ||| key_generated(variant, Err(CipherError::RandomSource), post, notice)
        },
        (Run::AcquireIv { key }, Event::Line(phrase)) => if valid_iv_len(
            encode_utf8(phrase@).len(),
        ) {
            &&& post matches Run::ReadInputFile { key: kept, iv }
            &&& kept == key
            &&& iv@ == encode_utf8(phrase@)
            &&& notice is None
        } else {
            &&& post == pre
            &&& notice == Some(Notice::IvRejected)
        },
        (Run::ReadInputFile { key, iv }, Event::InputRead { path, content }) => {
            &&& post == (Run::Encrypt { key, iv, path, plaintext: content })
            &&& notice == Some(Notice::InputRead { size: content.len() })
        },
        (Run::ReadInputFile { .. }, Event::ReadFailed(kind)) => {
            &&& post == (Run::Aborted { step: FailedStep::FileRead, cause: CipherError::Io(kind) })
            &&& notice is None
        },
        (Run::Encrypt { key, iv, path, plaintext }, Event::Resumed) => match encrypted(
            plaintext@,
            key@,
            iv@,
        ) {
            Ok(bytes) => {
                &&& post matches Run::PersistCiphertext {
                    key: k,
                    iv: v,
                    path: p,
                    plaintext: t,
                    ciphertext,
                }
                &&& k == key && v == iv && p == path && t == plaintext
                &&& ciphertext@ == bytes
                &&& decrypted(bytes, key@, iv@) == Ok::<Seq<u8>, CipherError>(plaintext@)
                &&& notice is None
            },
            Err(cause) => {
                &&& post == (Run::Aborted { step: FailedStep::Encryption, cause })
                &&& notice is None
            },
        },
        (Run::PersistCiphertext { key, iv, path, plaintext, ciphertext }, Event::Written) => {
            &&& post == (Run::Decrypt { key, iv, path, plaintext, ciphertext })
            &&& notice matches Some(Notice::CiphertextSaved { path: target })
            &&& target@ == encrypted_path(path@)
        },
        (Run::PersistCiphertext { .. }, Event::WriteFailed(kind)) => {
            &&& post == (Run::Aborted { step: FailedStep::FileWrite, cause: CipherError::Io(kind) })
            &&& notice is None
        },
        (Run::Decrypt { key, iv, path, plaintext, ciphertext }, Event::Resumed) => match decrypted(
            ciphertext@,
            key@,
            iv@,
        ) {
            Ok(bytes) => {
                &&& post matches Run::PersistRecoveredPlaintext { path: p, plaintext: t, recovered }
                &&& p == path && t == plaintext
                &&& recovered@ == bytes
                &&& notice == Some(Notice::PlaintextRecovered { size: recovered.len() })
            },
            Err(cause) => {
                &&& post == (Run::Aborted { step: FailedStep::Decryption, cause })
                &&& notice is None
            },
        },
        (Run::PersistRecoveredPlaintext { path, .. }, Event::Written) => {
            &&& post == Run::Done
            &&& notice matches Some(Notice::RecoveredSaved { path: target })
            &&& target@ == decrypted_path(path@)
        },
        (Run::PersistRecoveredPlaintext { .. }, Event::WriteFailed(kind)) => {
            &&& post == (Run::Aborted { step: FailedStep::FileWrite, cause: CipherError::Io(kind) })
            &&& notice is None
        },
        _ => post == pre && notice is None,
    }
}

/// One step moves a run to the next stage in order and never past it.  The
/// run stays where it is when a vector phrase is rejected or the event is not
/// what the stage asked for; it may abort; an ended run stays as it is.
pub proof fn lemma_no_stage_skipped(pre: Run, event: Event, post: Run, notice: Option<Notice>)
    requires
        transition(pre, event, post, notice),
    ensures
        post is Aborted || post == pre || (stage_index(pre) matches Some(i) && stage_index(post)
            == Some(i + 1)),
        pre is Done || pre is Aborted ==> post == pre,
{
}

/// One step keeps the data of a run consistent.
pub proof fn lemma_step_keeps_consistency(
    pre: Run,
    event: Event,
    post: Run,
    notice: Option<Notice>,
)
    requires
        consistent(pre),
        transition(pre, event, post, notice),
    ensures
        consistent(post),
{
}

/// A consistent run is aborted only by the random source or the file system:
/// its encryption cannot fail, and its self-check recovers the plaintext that
/// was read.
pub proof fn lemma_self_check_succeeds(pre: Run, event: Event, post: Run, notice: Option<Notice>)
    requires
        consistent(pre),
        transition(pre, event, post, notice),
    ensures
        post matches Run::Aborted { cause, .. } ==> pre is Aborted || cause
            == CipherError::RandomSource || cause is Io,
        pre matches Run::Decrypt { plaintext, .. } ==> event is Resumed ==> (
        post matches Run::PersistRecoveredPlaintext { recovered, .. } && recovered@ == plaintext@),
{
}

/// The file name for the ciphertext: the input's path followed by `.enc`.
pub fn ciphertext_path(path: &str) -> (target: String)
    ensures
        target@ == encrypted_path(path@),
{
    path.to_owned().concat(".enc")
}

/// The file name for the recovered plaintext: the input's path followed by
/// `_decrypted.txt`.
pub fn recovered_path(path: &str) -> (target: String)
    ensures
        target@ == decrypted_path(path@),
{
    path.to_owned().concat("_decrypted.txt")
}

/// Moves a run on from key generation: with a key to the vector stage,
/// reporting the variant's key size in bits and the key in hexadecimal; without
/// one to its end.
pub fn after_key_generation(variant: CipherVariant, outcome: Result<Vec<u8>, CipherError>) -> (res:
    (Run, Option<Notice>))
    ensures
        key_generated(variant, outcome, res.0, res.1),
{
    match outcome {
        Ok(key) => {
            let bits: usize = variant.key_bits();
            let encoded = hex_encode(key.as_slice());
            (Run::AcquireIv { key }, Some(Notice::KeyGenerated { bits, encoded }))
        },
        Err(cause) => (Run::Aborted { step: FailedStep::KeyGeneration, cause }, None),
    }
}

impl Run {
    /// A run at its first stage.
    pub fn new() -> (run: Run)
        ensures
            run == Run::ChooseKeySize,
            consistent(run),
    {
        Run::ChooseKeySize
    }

    /// Whether the run has ended, completed or aborted.
    pub fn is_over(&self) -> (over: bool)
        ensures
            over == (*self is Done || *self is Aborted),
    {
        match self {
            Run::Done => true,
            Run::Aborted { .. } => true,
            _ => false,
        }
    }

    /// What the driver has to do before the next `step`.
    pub fn request(&self) -> (request: Request)
        ensures
            requested(*self, request),
    {
        match self {
            Run::ChooseKeySize => Request::AskKeySize,
            Run::GenerateKey { .. } => Request::Proceed,
            Run::AcquireIv { .. } => Request::AskIv,
            Run::ReadInputFile { .. } => Request::ReadInput,
            Run::Encrypt { .. } => Request::Proceed,
            Run::PersistCiphertext { path, ciphertext, .. } => Request::WriteFile {
                path: ciphertext_path(path.as_str()),
                content: slice_to_vec(ciphertext.as_slice()),
            },
            Run::Decrypt { .. } => Request::Proceed,
            Run::PersistRecoveredPlaintext { path, recovered, .. } => Request::WriteFile {
                path: recovered_path(path.as_str()),
                content: slice_to_vec(recovered.as_slice()),
            },
            Run::Done => Request::Stop,
            Run::Aborted { .. } => Request::Stop,
        }
    }

    /// Takes what came of the driver's work and moves the run on.
    ///
    /// An event that the stage did not ask for leaves the run as it is.
    pub fn step(self, event: Event) -> (res: (Run, Option<Notice>))
        ensures
            transition(self, event, res.0, res.1),
    {
        match (self, event) {
            (Run::ChooseKeySize, Event::Line(choice)) => {
                match CipherVariant::from_choice(choice.as_str()) {
                    Some(variant) => (Run::GenerateKey { variant }, None),
                    None => (
                        Run::GenerateKey { variant: CipherVariant::Aes128 },
                        Some(Notice::KeySizeDefaulted),
                    ),
                }
            },
            (Run::GenerateKey { variant }, Event::Resumed) => {
                let outcome = get_random_key(variant.key_len());
                let ghost made = outcome;
                let res = after_key_generation(variant, outcome);
                proof {
                    if let Ok(generated) = made {
                        assert(key_generated(variant, Ok(generated), res.0, res.1));
                    }
                }
                res
            },
            (Run::AcquireIv { key }, Event::Line(phrase)) => {
                match validate_iv(phrase.as_str()) {
                    Ok(iv) => (Run::ReadInputFile { key, iv }, None),
                    Err(_) => (Run::AcquireIv { key }, Some(Notice::IvRejected)),
                }
            },
            (Run::ReadInputFile { key, iv }, Event::InputRead { path, content }) => {
                let size: usize = content.len();
                (Run::Encrypt { key, iv, path, plaintext: content }, Some(Notice::InputRead { size }))
            },
            (Run::ReadInputFile { .. }, Event::ReadFailed(kind)) => (
                Run::Aborted { step: FailedStep::FileRead, cause: CipherError::Io(kind) },
                None,
            ),
            (Run::Encrypt { key, iv, path, plaintext }, Event::Resumed) => {
                match encrypt_data(plaintext.as_slice(), key.as_slice(), iv.as_slice()) {
                    Ok(ciphertext) => (
                        Run::PersistCiphertext { key, iv, path, plaintext, ciphertext },
                        None,
                    ),
                    Err(cause) => (Run::Aborted { step: FailedStep::Encryption, cause }, None),
                }
            },
            (Run::PersistCiphertext { key, iv, path, plaintext, ciphertext }, Event::Written) => {
                let target = ciphertext_path(path.as_str());
                (
                    Run::Decrypt { key, iv, path, plaintext, ciphertext },
                    Some(Notice::CiphertextSaved { path: target }),
                )
            },
            (Run::PersistCiphertext { .. }, Event::WriteFailed(kind)) => (
                Run::Aborted { step: FailedStep::FileWrite, cause: CipherError::Io(kind) },
                None,
            ),
            (Run::Decrypt { key, iv, path, plaintext, ciphertext }, Event::Resumed) => {
                match decrypt_data(ciphertext.as_slice(), key.as_slice(), iv.as_slice()) {
                    Ok(recovered) => {
                        let size: usize = recovered.len();
                        (
                            Run::PersistRecoveredPlaintext { path, plaintext, recovered },
                            Some(Notice::PlaintextRecovered { size }),
                        )
                    },
                    Err(cause) => (Run::Aborted { step: FailedStep::Decryption, cause }, None),
                }
            },
            (Run::PersistRecoveredPlaintext { path, .. }, Event::Written) => {
                let target = recovered_path(path.as_str());
                (Run::Done, Some(Notice::RecoveredSaved { path: target }))
            },
            (Run::PersistRecoveredPlaintext { .. }, Event::WriteFailed(kind)) => (
                Run::Aborted { step: FailedStep::FileWrite, cause: CipherError::Io(kind) },
                None,
            ),
            (run, _) => (run, None),
        }
    }
}

} // verus!
