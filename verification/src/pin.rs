//! The pin file that ships with a packaged source tree: a JSON document
//! whose `git.sha1` entry names the commit that the package was made from.

use crate::error::Inconclusive;
use crate::error::InconclusiveView;
use crate::git::CommitId;
use crate::text::trim;
use crate::text::trimmed;
use vstd::prelude::*;
use vstd::string::*;

verus! {

/// A JSON value as `tinyjson` holds it.
#[verifier::external_type_specification]
#[verifier::external_body]
pub struct ExJsonValue(tinyjson::JsonValue);

/// The value that `tinyjson` reads from a text, where the text is a JSON
/// document.
pub uninterp spec fn json_document(text: Seq<char>) -> Option<tinyjson::JsonValue>;

/// The members that a JSON object holds, by key. A value that is no object
/// holds none.
pub uninterp spec fn json_members(value: tinyjson::JsonValue) -> Map<
    Seq<char>,
    tinyjson::JsonValue,
>;

/// The text of a JSON value that is a string.
pub uninterp spec fn json_string(value: tinyjson::JsonValue) -> Option<Seq<char>>;

/// `str::parse::<tinyjson::JsonValue>`: parses the text as one JSON value.
/// Whether it is one, and which, depends on the text alone. The error is
/// handed out as the text of its `Display`, of which nothing is claimed: it
/// may show parts of the document in an order of their own.
#[verifier::external_body]
fn parse_json(text: &str) -> (r: Result<tinyjson::JsonValue, String>)
    ensures
        match r {
            Ok(value) => json_document(text@) == Some(value),
            Err(_) => json_document(text@) is None,
        },
{
    text.parse::<tinyjson::JsonValue>().map_err(|err| err.to_string())
}

/// `JsonValue::get::<HashMap<_, _>>` followed by `HashMap::get`: the member
/// under `key` where the value is an object that has one.
#[verifier::external_body]
fn get_key<'a>(value: &'a tinyjson::JsonValue, key: &str) -> (r: Option<&'a tinyjson::JsonValue>)
    ensures
        match r {
            Some(member) => json_members(*value).dom().contains(key@) && *member == json_members(
                *value,
            )[key@],
            None => !json_members(*value).dom().contains(key@),
        },
{
    value.get::<std::collections::HashMap<String, tinyjson::JsonValue>>()?.get(key)
}

/// `JsonValue::get::<String>`: the text where the value is a string.
#[verifier::external_body]
fn get_string(value: &tinyjson::JsonValue) -> (r: Option<String>)
    ensures
        match r {
            Some(text) => json_string(*value) == Some(text@),
            None => json_string(*value) is None,
        },
{
    value.get::<String>().cloned()
}

/// What a recorded identity amounts to: the commit it names once trimmed, or
/// the refusal of a text that is too short.
pub open spec fn recorded_commit(sha1: Seq<char>) -> Result<Seq<char>, InconclusiveView> {
    if CommitId::acceptable(sha1) {
        Ok(trimmed(sha1))
    } else {
        Err(InconclusiveView::UnsafeCommitId(trimmed(sha1)))
    }
}

/// What a parsed pin document amounts to.
pub open spec fn pinned_in(document: tinyjson::JsonValue) -> Result<Seq<char>, InconclusiveView> {
    if !json_members(document).dom().contains("git"@) {
        Err(InconclusiveView::NoGitSection)
    } else {
        let git = json_members(document)["git"@];
        if !json_members(git).dom().contains("sha1"@) {
            Err(InconclusiveView::CommitNotRecognized)
        } else {
            match json_string(json_members(git)["sha1"@]) {
                None => Err(InconclusiveView::CommitNotString),
                Some(sha1) => recorded_commit(sha1),
            }
        }
    }
}

/// What the text of a pin file amounts to: the commit it pins, or why it pins
/// none. What the reader says of a text that is no document is left open.
pub open spec fn pinned_commit(text: Seq<char>) -> Result<Seq<char>, InconclusiveView> {
    match json_document(text) {
        None => Err(InconclusiveView::UnreadablePin),
        Some(document) => pinned_in(document),
    }
}

/// Whether `r` is the exec form of `expected`.
pub open spec fn commit_matches(
    r: Result<CommitId, Inconclusive>,
    expected: Result<Seq<char>, InconclusiveView>,
) -> bool {
    match r {
        Ok(id) => expected == Ok::<Seq<char>, InconclusiveView>(id@),
        Err(e) => expected == Err::<Seq<char>, InconclusiveView>(e@),
    }
}

/// The commit that the recorded text `sha1` names. A text with fewer than 40
/// characters after trimming names none.
pub fn commit_from_record(sha1: &str) -> (r: Result<CommitId, Inconclusive>)
    ensures
        commit_matches(r, recorded_commit(sha1@)),
{
    match CommitId::checked(sha1) {
        Some(id) => Ok(id),
        None => Err(Inconclusive::UnsafeCommitId(trim(sha1))),
    }
}

/// The commit that a parsed pin document pins.
pub fn commit_from_document(document: &tinyjson::JsonValue) -> (r: Result<
    CommitId,
    Inconclusive,
>)
    ensures
        commit_matches(r, pinned_in(*document)),
{
    let git = match get_key(document, "git") {
        Some(git) => git,
        None => { return Err(Inconclusive::NoGitSection); },
    };
    let sha1 = match get_key(git, "sha1") {
        Some(sha1) => sha1,
        None => { return Err(Inconclusive::CommitNotRecognized); },
    };
    match get_string(sha1) {
        Some(text) => commit_from_record(text.as_str()),
        None => Err(Inconclusive::CommitNotString),
    }
}

/// The commit that the text of a pin file pins.
pub fn read_pin(text: &str) -> (r: Result<CommitId, Inconclusive>)
    ensures
        commit_matches(r, pinned_commit(text@)),
{
    match parse_json(text) {
        Err(why) => Err(Inconclusive::UnreadablePin(why)),
        Ok(document) => commit_from_document(&document),
    }
}

/// The text under `git.sha1` of the document that `text` holds, where there
/// is one.
pub open spec fn recorded_sha1(text: Seq<char>) -> Option<Seq<char>> {
    match json_document(text) {
        None => None,
        Some(document) => if !json_members(document).dom().contains("git"@) {
            None
        } else if !json_members(json_members(document)["git"@]).dom().contains("sha1"@) {
            None
        } else {
            json_string(json_members(json_members(document)["git"@])["sha1"@])
        },
    }
}

/// A pin file whose recorded identity has fewer than 40 characters pins no
/// commit: it is refused as unsafe, whatever else the file holds.
pub proof fn lemma_short_sha1_is_refused(text: Seq<char>, sha1: Seq<char>)
    requires
        recorded_sha1(text) == Some(sha1),
        sha1.len() < crate::git::COMMIT_ID_MIN,
    ensures
        pinned_commit(text) == Err::<Seq<char>, InconclusiveView>(
            InconclusiveView::UnsafeCommitId(trimmed(sha1)),
        ),
{
    crate::text::lemma_trimmed_len(sha1);
}

/// A pin file pins a commit exactly when it records an identity that keeps
/// at least 40 characters once trimmed; the commit is then that identity,
/// trimmed.
pub proof fn lemma_pinned_commit(text: Seq<char>)
    ensures
        pinned_commit(text) is Ok <==> (recorded_sha1(text) matches Some(sha1)
            && CommitId::acceptable(sha1)),
        pinned_commit(text) matches Ok(commit) ==> commit.len() >= crate::git::COMMIT_ID_MIN
            && Some(commit) == match recorded_sha1(text) {
            Some(sha1) => Some(trimmed(sha1)),
            None => None,
        },
{
}

} // verus!
