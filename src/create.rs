use vstd::prelude::*;

use crate::text::{is_blank, is_blank_text};
use crate::tool::ToolOutcome;

verus! {

/// The position of the first `@` of a comment, or its length where it has none.
pub open spec fn label_end(comment: Seq<char>) -> int
    decreases comment.len(),
{
    if comment.len() == 0 {
        0
    } else if comment[0] == '@' {
        0
    } else {
        1 + label_end(comment.drop_first())
    }
}

/// The label of a comment: the part before its first `@`, or all of it.
pub open spec fn key_label(comment: Seq<char>) -> Seq<char> {
    comment.take(label_end(comment))
}

/// The name of the private key file made for an algorithm and a comment:
/// `id_<algorithm>_<label>`.
pub open spec fn key_filename_of(algorithm: Seq<char>, comment: Seq<char>) -> Seq<char> {
    "id_"@ + algorithm + "_"@ + key_label(comment)
}

/// The passphrase handed to the key generator: the one given, unless none
/// was given or it is blank, and then the empty one.
pub open spec fn passphrase_of(passphrase: Option<String>) -> Seq<char> {
    if passphrase is Some && !is_blank(passphrase->0@) {
        passphrase->0@
    } else {
        seq![]
    }
}

proof fn lemma_label_end(s: Seq<char>, i: int)
    requires
        0 <= i <= s.len(),
        forall|j: int| 0 <= j < i ==> s[j] != '@',
        i == s.len() || s[i] == '@',
    ensures
        label_end(s) == i,
    decreases i,
{
    if i > 0 {
        let t = s.drop_first();
        assert forall|j: int| 0 <= j < i - 1 implies t[j] != '@' by {
            assert(t[j] == s[j + 1]);
        }
        if i < s.len() {
            assert(t[i - 1] == s[i]);
        }
        lemma_label_end(t, i - 1);
    }
}

/// The name of the private key file for an algorithm and a comment.
pub fn key_filename(algorithm: &str, comment: &str) -> (r: String)
    ensures
        r@ == key_filename_of(algorithm@, comment@),
{
    let n = comment.unicode_len();
    let mut i: usize = 0;
    while i < n && comment.get_char(i) != '@'
        invariant
            i <= n,
            n == comment@.len(),
            forall|j: int| 0 <= j < i ==> comment@[j] != '@',
        decreases n - i,
    {
        i = i + 1;
    }
    proof {
        lemma_label_end(comment@, i as int);
    }
    let label = comment.substring_char(0, i);
    String::from_str("id_").concat(algorithm).concat("_").concat(label)
}

/// The passphrase to hand to the key generator; it is never absent, so that
/// the generator never asks for one.
pub fn generator_passphrase(passphrase: &Option<String>) -> (r: String)
    ensures
        r@ == passphrase_of(*passphrase),
{
    match passphrase {
        Some(p) => {
            if is_blank_text(p.as_str()) {
                String::new()
            } else {
                p.clone()
            }
        },
        None => String::new(),
    }
}

/// A request for a new key pair.
pub struct KeyCreationRequest {
    /// The key's comment, often an email address.
    pub comment: String,
    /// The key type, such as `rsa` or `ed25519`.
    pub algorithm: String,
    pub bit_size: u32,
    pub passphrase: Option<String>,
}

/// What the key generator is run with.
pub struct KeyGeneration {
    pub algorithm: String,
    pub bit_size: u32,
    pub comment: String,
    /// The name of the private key file in the store directory.
    pub filename: String,
    /// Empty for a key without a passphrase.
    pub passphrase: String,
}

/// Why a key pair was not created.
pub enum CreateError {
    /// The user's home directory could not be found.
    NoHomeDirectory,
    /// The store directory was missing and could not be made; the reason.
    DirCreateFailed(String),
    /// A file of the key's name is already in the store; that name.
    AlreadyExists(String),
    /// The key generator could not be started; the reason.
    ToolUnavailable(String),
    /// The key generator ran and failed; its standard error.
    GeneratorFailed(String),
}

impl CreateError {
    /// The text shown to the user.
    pub fn message(&self) -> (r: String)
        ensures
            match self {
                CreateError::NoHomeDirectory => r@ == "Could not find home directory"@,
                CreateError::DirCreateFailed(e) => r@ == "Failed to create .ssh directory: "@ + e@,
                CreateError::AlreadyExists(f) => r@ == "SSH key '"@ + f@ + "' already exists"@,
                CreateError::ToolUnavailable(e) => r@ == "Failed to run ssh-keygen: "@ + e@,
                CreateError::GeneratorFailed(e) => r@ == "Failed to create SSH key: "@ + e@,
            },
    {
        match self {
            CreateError::NoHomeDirectory => String::from_str("Could not find home directory"),
            CreateError::DirCreateFailed(e) => String::from_str(
                "Failed to create .ssh directory: ",
            ).concat(e.as_str()),
            CreateError::AlreadyExists(f) => String::from_str("SSH key '").concat(f.as_str()).concat(
                "' already exists",
            ),
            CreateError::ToolUnavailable(e) => String::from_str("Failed to run ssh-keygen: ").concat(
                e.as_str(),
            ),
            CreateError::GeneratorFailed(e) => String::from_str("Failed to create SSH key: ").concat(
                e.as_str(),
            ),
        }
    }
}

/// What to generate for a request, given whether a file of the key's name is
/// already in the store: a key is never written over an existing file.
pub fn plan_ssh_key(request: &KeyCreationRequest, target_exists: bool) -> (r: Result<
    KeyGeneration,
    CreateError,
>)
    ensures
        target_exists ==> match r {
            Err(CreateError::AlreadyExists(f)) => f@ == key_filename_of(
                request.algorithm@,
                request.comment@,
            ),
            _ => false,
        },
        !target_exists ==> match r {
            Ok(g) => {
                &&& g.algorithm@ == request.algorithm@
                &&& g.bit_size == request.bit_size
                &&& g.comment@ == request.comment@
                &&& g.filename@ == key_filename_of(request.algorithm@, request.comment@)
                &&& g.passphrase@ == passphrase_of(request.passphrase)
            },
            _ => false,
        },
{
    let filename = key_filename(request.algorithm.as_str(), request.comment.as_str());
    if target_exists {
        Err(CreateError::AlreadyExists(filename))
    } else {
        Ok(
            KeyGeneration {
                algorithm: request.algorithm.clone(),
                bit_size: request.bit_size,
                comment: request.comment.clone(),
                filename,
                passphrase: generator_passphrase(&request.passphrase),
            },
        )
    }
}

/// The result of a creation, from what the key generator gave.
pub fn key_creation_result(filename: &str, outcome: &ToolOutcome) -> (r: Result<String, CreateError>)
    ensures
        match outcome {
            ToolOutcome::Succeeded(_) => r is Ok && r->Ok_0@ == "SSH key created successfully: "@
                + filename@,
            ToolOutcome::Failed(err) => match r {
                Err(CreateError::GeneratorFailed(e)) => e@ == err@,
                _ => false,
            },
            ToolOutcome::Unavailable(why) => match r {
                Err(CreateError::ToolUnavailable(e)) => e@ == why@,
                _ => false,
            },
        },
{
    match outcome {
        ToolOutcome::Succeeded(_) => Ok(
            String::from_str("SSH key created successfully: ").concat(filename),
        ),
        ToolOutcome::Failed(err) => Err(CreateError::GeneratorFailed(err.clone())),
        ToolOutcome::Unavailable(why) => Err(CreateError::ToolUnavailable(why.clone())),
    }
}

} // verus!
