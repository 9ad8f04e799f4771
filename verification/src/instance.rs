//! One instance of the program at a time: a second one hands its files to the first.

use vstd::prelude::*;

use crate::text::{concat, contents, hex_padded, push_hex_padded};

verus! {

/// How often the first instance is called before giving up.
pub const FORWARD_ATTEMPTS: u32 = 10;

/// How long is waited between two calls, in milliseconds.
pub const FORWARD_PAUSE_MS: u64 = 50;

/// An error of the `serde_json` crate.
#[verifier::external_type_specification]
#[verifier::external_body]
pub struct ExJsonError(serde_json::Error);

/// Why the instances could not agree.
pub enum InstanceError {
    Lock(String),
    Io(String),
    Json(serde_json::Error),
}

impl InstanceError {
    /// Whether `message` is the message shown to the user.
    pub open spec fn says(&self, message: Seq<char>) -> bool {
        match self {
            InstanceError::Lock(error) => message == "无法创建单实例锁: "@ + error@,
            InstanceError::Io(error) => message == "单实例通信失败: "@ + error@,
            InstanceError::Json(error) => exists|text: String| #[trigger]
                vstd::string::to_string_from_display_ensures::<serde_json::Error>(error, text)
                    && message == "单实例消息格式失败: "@ + text@,
        }
    }

    /// The message shown to the user.
    pub fn to_message(&self) -> (message: String)
        ensures
            self.says(message@),
    {
        match self {
            InstanceError::Lock(error) => concat("无法创建单实例锁: ", error.as_str()),
            InstanceError::Io(error) => concat("单实例通信失败: ", error.as_str()),
            InstanceError::Json(error) => {
                let text = error.to_string();
                concat("单实例消息格式失败: ", text.as_str())
            },
        }
    }
}

/// The bytes that `serde_json::to_vec` writes for a list of strings.
pub uninterp spec fn json_of_paths(paths: Seq<Seq<char>>) -> Seq<u8>;

/// The list of strings that `serde_json::from_slice` reads from bytes; nothing where they
/// hold none.
pub uninterp spec fn paths_of_json(bytes: Seq<u8>) -> Option<Seq<Seq<char>>>;

/// `serde_json::to_vec` of a list of strings: it does not fail, as strings write themselves
/// without errors and there is no map among them; the bytes depend on the list alone, and
/// hold the list for whoever reads them.
#[verifier::external_body]
fn paths_to_json(paths: &Vec<String>) -> (bytes: Result<Vec<u8>, serde_json::Error>)
    ensures
        bytes matches Ok(bytes) && bytes@ == json_of_paths(contents(paths@)) && paths_of_json(
            bytes@,
        ) == Some(contents(paths@)),
{
    serde_json::to_vec(paths)
}

/// `serde_json::from_slice` into a list of strings: what is read depends on the bytes
/// alone.
#[verifier::external_body]
fn paths_from_json(bytes: &Vec<u8>) -> (paths: Result<Vec<String>, serde_json::Error>)
    ensures
        match paths {
            Ok(paths) => paths_of_json(bytes@) == Some(contents(paths@)),
            Err(_) => paths_of_json(bytes@) is None,
        },
{
    serde_json::from_slice(bytes)
}

/// The message that hands files to the first instance.
pub fn message_for_primary(files: &Vec<String>) -> (message: Result<Vec<u8>, InstanceError>)
    ensures
        message matches Ok(bytes) && bytes@ == json_of_paths(contents(files@)) && paths_of_json(
            bytes@,
        ) == Some(contents(files@)),
{
    match paths_to_json(files) {
        Ok(bytes) => Ok(bytes),
        Err(error) => Err(InstanceError::Json(error)),
    }
}

/// The files that a message hands over; none where it cannot be read.
pub fn files_from_message(message: &Vec<u8>) -> (files: Option<Vec<String>>)
    ensures
        match files {
            Some(files) => paths_of_json(message@) == Some(contents(files@)),
            None => paths_of_json(message@) is None,
        },
{
    match paths_from_json(message) {
        Ok(files) => Some(files),
        Err(_) => None,
    }
}

/// The name of the file through which the instances talk.
pub open spec fn socket_name(hash: u64) -> Seq<char> {
    "rs-board-"@ + hex_padded(hash as nat, 16) + ".sock"@
}

/// The name of the file through which the instances talk, for a hash of the program's
/// directory.
pub fn socket_file_name(hash: u64) -> (name: String)
    ensures
        name@ == socket_name(hash),
{
    let mut name = "rs-board-".to_owned();
    push_hex_padded(&mut name, hash, 16);
    name.append(".sock");
    name
}

/// What an instance does.
#[derive(Clone, Copy, PartialEq, Eq, Structural)]
pub enum InstanceDuty {
    /// It is the first: it listens.
    Listen,
    /// It is not: it hands over its files and ends.
    Forward,
}

/// What an instance does, given whether it is the only one.
pub fn instance_duty(is_single: bool) -> (duty: InstanceDuty)
    ensures
        duty == if is_single {
            InstanceDuty::Listen
        } else {
            InstanceDuty::Forward
        },
{
    if is_single {
        InstanceDuty::Listen
    } else {
        InstanceDuty::Forward
    }
}

/// What came of removing the file that an earlier instance left.
#[derive(Clone, Copy, PartialEq, Eq, Structural)]
pub enum Removal {
    Removed,
    NotFound,
    Failed,
}

/// Whether the first instance can listen: nothing is left of an earlier one.
pub fn can_listen(removal: Removal) -> (yes: bool)
    ensures
        yes == (removal != Removal::Failed),
{
    match removal {
        Removal::Failed => false,
        _ => true,
    }
}

/// What follows a call of the first instance.
#[derive(Clone, Copy, PartialEq, Eq, Structural)]
pub enum ForwardStep {
    /// Send the message.
    Send,
    /// Wait, and call again as this attempt.
    Retry(u32),
    /// Give up.
    Fail,
}

/// What follows the call of number `attempt`, counted from zero.
pub fn forward_to_primary(attempt: u32, connected: bool) -> (step: ForwardStep)
    requires
        attempt < FORWARD_ATTEMPTS,
    ensures
        step == if connected {
            ForwardStep::Send
        } else if attempt + 1 < FORWARD_ATTEMPTS {
            ForwardStep::Retry((attempt + 1) as u32)
        } else {
            ForwardStep::Fail
        },
        step matches ForwardStep::Retry(next) ==> next < FORWARD_ATTEMPTS,
{
    if connected {
        ForwardStep::Send
    } else if attempt + 1 < FORWARD_ATTEMPTS {
        ForwardStep::Retry(attempt + 1)
    } else {
        ForwardStep::Fail
    }
}

proof fn lemma_hex_padded_len(n: nat, width: nat)
    ensures
        hex_padded(n, width).len() == width,
    decreases width,
{
    if width > 0 {
        lemma_hex_padded_len(n / 16, (width - 1) as nat);
    }
}

/// The name of the file through which the instances talk has the same length whatever the
/// directory is, so that it fits where such names must be short.
pub proof fn law_socket_names_are_short(hash: u64)
    ensures
        socket_name(hash).len() == 30,
{
    lemma_hex_padded_len(hash as nat, 16);
    reveal_strlit("rs-board-");
    reveal_strlit(".sock");
}

} // verus!
