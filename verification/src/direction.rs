//! Transfer directions and the key under which the scheduler knows a transfer.

use vstd::prelude::*;
use vstd::string::*;

use crate::log;
use crate::log::sanitize_url;

verus! {

/// Which way the bytes go.
#[derive(Debug, Clone, Copy, PartialEq, Eq, Structural)]
pub enum Direction {
    Upload,
    Download,
}

/// What identifies a transfer inside the scheduler: its direction and, for an
/// upload, the content signature of the source, for a download, the URL.
pub type UniqueId = (Direction, String);

/// The mathematical value of a [`UniqueId`].
pub type KeyView = (Direction, Seq<char>);

/// The value of a key, independent of how its text is stored.
pub open spec fn key_view(key: UniqueId) -> KeyView {
    (key.0, key.1@)
}

/// Whether two keys name the same transfer.
pub fn same_key(a: &UniqueId, b: &UniqueId) -> (same: bool)
    ensures
        same == (key_view(*a) == key_view(*b)),
{
    a.0 == b.0 && a.1 == b.1
}

/// A second copy of a key.
pub fn copy_key(key: &UniqueId) -> (copy: UniqueId)
    ensures
        copy == *key,
{
    (key.0, key.1.clone())
}

/// The name of a direction as it appears in log lines.
pub open spec fn direction_label(direction: Direction) -> Seq<char> {
    match direction {
        Direction::Upload => "Upload"@,
        Direction::Download => "Download"@,
    }
}

/// How a key reads in log lines.
pub open spec fn safe_key_text(k: KeyView) -> Seq<char> {
    "("@ + direction_label(k.0) + ", "@ + log::sanitized(k.1) + ")"@
}

/// Renders a key for log lines. The text part is a URL for downloads, so its
/// query string goes through [`sanitize_url`] first.
pub fn safe_key(key: &UniqueId) -> (text: String)
    ensures
        text@ == safe_key_text(key_view(*key)),
{
    let mut text = "(".to_owned();
    match key.0 {
        Direction::Upload => text.append("Upload"),
        Direction::Download => text.append("Download"),
    }
    text.append(", ");
    let name = sanitize_url(key.1.as_str());
    text.append(name.as_str());
    text.append(")");
    text
}

} // verus!
