//! Where the service keeps its files, and the launchd names it is known by.
//! Paths are byte strings, as the system gives and takes them.

use vstd::prelude::*;
use vstd::utf8::{decode_utf8, encode_utf8, valid_utf8};
use crate::text::{decimal, push_decimal};

verus! {

/// The launchd label of the agent.
pub open spec fn service_label() -> Seq<char> {
    "com.rift.app-indicator"@
}

/// `base` with the relative component `part` appended, as a path buffer
/// does on Unix: a `/` is put between them unless `base` is empty or
/// already ends with one.
pub open spec fn path_join(base: Seq<u8>, part: Seq<u8>) -> Seq<u8> {
    if base.len() == 0 || base.last() == 47u8 {
        base + part
    } else {
        base + seq![47u8] + part
    }
}

/// `~/.local/bin/rift-app-indicator`, with `home` for `~`.
pub open spec fn installed_bin_path_of(home: Seq<u8>) -> Seq<u8> {
    path_join(
        path_join(path_join(home, encode_utf8(".local"@)), encode_utf8("bin"@)),
        encode_utf8("rift-app-indicator"@),
    )
}

/// `~/Library/LaunchAgents/com.rift.app-indicator.plist`, with `home` for `~`.
pub open spec fn plist_path_of(home: Seq<u8>) -> Seq<u8> {
    path_join(
        path_join(path_join(home, encode_utf8("Library"@)), encode_utf8("LaunchAgents"@)),
        encode_utf8("com.rift.app-indicator.plist"@),
    )
}

/// The launchd domain of the GUI session of user `uid`: `gui/<uid>`.
pub open spec fn domain_target_of(uid: u32) -> Seq<char> {
    "gui/"@ + decimal(uid as nat)
}

/// The launchd name of the agent in the GUI session of user `uid`:
/// `gui/<uid>/com.rift.app-indicator`.
pub open spec fn service_target_of(uid: u32) -> Seq<char> {
    domain_target_of(uid) + "/"@ + service_label()
}

/// The text a path shows (as `Path::display` shows it on Unix): its bytes
/// decoded as UTF-8, each invalid run replaced by U+FFFD.
pub uninterp spec fn lossy_text(bytes: Seq<u8>) -> Seq<char>;

/// Calls std's `String::from_utf8_lossy`. Its result is named `lossy_text`
/// of the bytes, and, as its documentation says, is the bytes' decoding
/// when they are valid UTF-8. How invalid runs are replaced is left to the
/// name.
#[verifier::external_body]
pub(crate) fn lossy_string(bytes: &[u8]) -> (s: String)
    ensures
        s@ == lossy_text(bytes@),
        valid_utf8(bytes@) ==> s@ == decode_utf8(bytes@),
{
    String::from_utf8_lossy(bytes).into_owned()
}

/// Calls std's `str::from_utf8`: by its documentation the bytes as text
/// exactly when they are valid UTF-8, their decoding; otherwise nothing.
#[verifier::external_body]
pub(crate) fn utf8_str(bytes: &[u8]) -> (s: Option<&str>)
    ensures
        s is Some <==> valid_utf8(bytes@),
        s matches Some(t) ==> t@ == decode_utf8(bytes@),
{
    std::str::from_utf8(bytes).ok()
}

/// Appends the relative component `part` to `path` (see `path_join`).
pub fn push_component(path: &mut Vec<u8>, part: &[u8])
    ensures
        final(path)@ == path_join(old(path)@, part@),
{
    let n = path.len();
    if n > 0 && path[n - 1] != 47u8 {
        path.push(47u8);
    }
    let ghost base = path@;
    assert(base == if old(path)@.len() == 0 || old(path)@.last() == 47u8 {
        old(path)@
    } else {
        old(path)@ + seq![47u8]
    });
    let mut i: usize = 0;
    while i < part.len()
        invariant
            i <= part.len(),
            path@ == base + part@.take(i as int),
        decreases part.len() - i,
    {
        path.push(part[i]);
        i = i + 1;
        assert(path@ =~= base + part@.take(i as int));
    }
    assert(part@.take(part.len() as int) =~= part@);
    assert(final(path)@ =~= path_join(old(path)@, part@));
}

/// The bytes of `s`, as a new path.
fn path_from(s: &[u8]) -> (p: Vec<u8>)
    ensures
        p@ == s@,
{
    let mut p: Vec<u8> = Vec::new();
    push_component(&mut p, s);
    assert(p@ =~= s@);
    p
}

/// Where the service keeps its copy of the executable:
/// `<home>/.local/bin/rift-app-indicator`.
pub fn installed_bin_path(home: &[u8]) -> (p: Vec<u8>)
    ensures
        p@ == installed_bin_path_of(home@),
{
    let mut p = path_from(home);
    push_component(&mut p, ".local".as_bytes());
    push_component(&mut p, "bin".as_bytes());
    push_component(&mut p, "rift-app-indicator".as_bytes());
    p
}

/// Where the service's launch agent definition lives:
/// `<home>/Library/LaunchAgents/com.rift.app-indicator.plist`.
pub fn plist_path(home: &[u8]) -> (p: Vec<u8>)
    ensures
        p@ == plist_path_of(home@),
{
    let mut p = path_from(home);
    push_component(&mut p, "Library".as_bytes());
    push_component(&mut p, "LaunchAgents".as_bytes());
    push_component(&mut p, "com.rift.app-indicator.plist".as_bytes());
    p
}

/// `gui/<uid>`.
pub fn domain_target(uid: u32) -> (t: String)
    ensures
        t@ == domain_target_of(uid),
{
    let mut t = String::from_str("gui/");
    push_decimal(&mut t, uid as u64);
    t
}

/// `gui/<uid>/com.rift.app-indicator`.
pub fn service_target(uid: u32) -> (t: String)
    ensures
        t@ == service_target_of(uid),
{
    let t = domain_target(uid).concat("/").concat("com.rift.app-indicator");
    t
}

} // verus!
