use vstd::prelude::*;

verus! {

/// What an update of a fingerprint sidecar did.
#[derive(Clone, Copy, Debug, PartialEq, Eq, Structural)]
pub enum WriteFileStatus {
    /// The sidecar was absent, unreadable or different, and now holds the new text.
    NewContentsWriten,
    /// The sidecar already held exactly the new text.
    NoWrite,
}

/// The outcome of an update of the sidecar whose current content is `stored`
/// (`None` when it is absent or unreadable) with the command text `content`.
pub open spec fn fingerprint_status(stored: Option<Seq<char>>, content: Seq<char>) -> WriteFileStatus {
    if stored == Some(content) {
        WriteFileStatus::NoWrite
    } else {
        WriteFileStatus::NewContentsWriten
    }
}

/// The content of the sidecar after such an update: always the new text.
pub open spec fn fingerprint_after(stored: Option<Seq<char>>, content: Seq<char>) -> Option<Seq<char>> {
    Some(content)
}

/// The view of an optional string.
pub open spec fn opt_view(s: Option<String>) -> Option<Seq<char>> {
    match s {
        Some(t) => Some(t@),
        None => None,
    }
}

/// Updates the fingerprint sidecar, whose content is held in `stored`, with
/// the command text `content`: the text is written unless the sidecar already
/// holds exactly that text.
pub fn write_file_if_changed(stored: &mut Option<String>, content: &str) -> (r: WriteFileStatus)
    ensures
        r == fingerprint_status(opt_view(*old(stored)), content@),
        opt_view(*final(stored)) == fingerprint_after(opt_view(*old(stored)), content@),
        r == WriteFileStatus::NoWrite ==> *final(stored) == *old(stored),
{
    let new_content = content.to_owned();
    let same = match stored {
        Some(s) => *s == new_content,
        None => false,
    };
    if same {
        WriteFileStatus::NoWrite
    } else {
        *stored = Some(new_content);
        WriteFileStatus::NewContentsWriten
    }
}

/// Updating the sidecar twice with the same text writes only the first time:
/// the second update finds the text in place and leaves it there.
pub proof fn fingerprint_update_idempotent(stored: Option<Seq<char>>, content: Seq<char>)
    ensures
        fingerprint_status(stored, content) == WriteFileStatus::NewContentsWriten <==> stored
            != Some(content),
        fingerprint_status(fingerprint_after(stored, content), content)
            == WriteFileStatus::NoWrite,
        fingerprint_after(fingerprint_after(stored, content), content) == fingerprint_after(
            stored,
            content,
        ),
{
}

} // verus!
