//! Results of Authenticode signature checks, and the per-path cache that
//! keeps each executable from being checked twice.
use vstd::prelude::*;

use crate::explain::copy_text;
use crate::text::{append_chars, chars_of, string_of, text_is};

verus! {

/// Result of checking one executable's signature.
#[derive(Debug, Clone)]
pub struct SignatureInfo {
    pub is_signed: bool,
    /// The signer's organization name, if available.
    pub publisher: Option<String>,
    /// Why the file counts as unsigned, when it does; `None` for signed files.
    pub detail: Option<String>,
}

/// The detail given when a file carries no signature at all.
pub open spec fn no_signature_detail() -> Seq<char> {
    "no signature was found on the file"@
}

/// The detail given when verification failed for `reason`.
pub open spec fn failure_detail(reason: Seq<char>) -> Seq<char> {
    "signature verification failed ("@ + reason + ")"@
}

/// `info` is the verdict for a file with no signature.
pub open spec fn is_no_signature(info: SignatureInfo) -> bool {
    &&& !info.is_signed
    &&& info.publisher is None
    &&& info.detail matches Some(d) && d@ == no_signature_detail()
}

/// `info` is a verdict a check can give: a signed file has no failure
/// detail, and an unsigned file has a detail and no publisher.
pub open spec fn is_well_formed(info: SignatureInfo) -> bool {
    &&& info.is_signed ==> info.detail is None
    &&& !info.is_signed ==> info.publisher is None && info.detail is Some
}

impl SignatureInfo {
    /// The verdict for a file with no signature.
    pub fn unsigned_no_signature() -> (info: SignatureInfo)
        ensures
            is_no_signature(info),
            is_well_formed(info),
    {
        SignatureInfo {
            is_signed: false,
            publisher: None,
            detail: Some("no signature was found on the file".to_owned()),
        }
    }

    /// The verdict for a file whose signature could not be verified.
    pub fn unsigned_verification_failed(reason: String) -> (info: SignatureInfo)
        ensures
            !info.is_signed,
            info.publisher is None,
            info.detail matches Some(d) && d@ == failure_detail(reason@),
            is_well_formed(info),
    {
        let mut text = chars_of("signature verification failed (");
        let r = chars_of(reason.as_str());
        append_chars(&mut text, r.as_slice());
        text.push(')');
        proof {
            reveal_strlit(")");
        }
        assert(text@ =~= failure_detail(reason@));
        SignatureInfo { is_signed: false, publisher: None, detail: Some(string_of(text.as_slice())) }
    }

    /// The verdict for a file with a valid signature by `publisher`.
    pub fn signed_by(publisher: Option<String>) -> (info: SignatureInfo)
        ensures
            info.is_signed,
            info.publisher == publisher,
            info.detail is None,
            is_well_formed(info),
    {
        SignatureInfo { is_signed: true, publisher, detail: None }
    }

    /// Whether this verdict is one a check can give.
    pub fn is_well_formed(&self) -> (r: bool)
        ensures
            r == is_well_formed(*self),
    {
        if self.is_signed {
            self.detail.is_none()
        } else {
            self.publisher.is_none() && self.detail.is_some()
        }
    }

    /// A copy of this verdict.
    pub fn duplicate(&self) -> (info: SignatureInfo)
        ensures
            info == *self,
    {
        SignatureInfo {
            is_signed: self.is_signed,
            publisher: copy_text(&self.publisher),
            detail: copy_text(&self.detail),
        }
    }
}

/// The verdict cached for `path` among `entries`: that of the first entry
/// for it.
pub open spec fn cached_in(entries: Seq<(String, SignatureInfo)>, path: Seq<char>) -> Option<
    SignatureInfo,
>
    decreases entries.len(),
{
    if entries.len() == 0 {
        None
    } else if entries[0].0@ == path {
        Some(entries[0].1)
    } else {
        cached_in(entries.drop_first(), path)
    }
}

/// A verdict cached among well-formed entries is well formed.
proof fn cached_is_well_formed(entries: Seq<(String, SignatureInfo)>, path: Seq<char>)
    requires
        forall|i: int| 0 <= i < entries.len() ==> is_well_formed(#[trigger] entries[i].1),
    ensures
        cached_in(entries, path) matches Some(info) ==> is_well_formed(info),
    decreases entries.len(),
{
    if entries.len() > 0 && entries[0].0@ != path {
        let rest = entries.drop_first();
        assert forall|i: int| 0 <= i < rest.len() implies is_well_formed(#[trigger] rest[i].1) by {
            assert(rest[i] == entries[i + 1]);
        }
        cached_is_well_formed(rest, path);
    }
}

/// Signature verdicts already known, by executable path. An executable's
/// signature does not change while it runs, so a verdict is kept for the
/// lifetime of the application. The entries are a `Vec` of pairs: vstd
/// specifies `HashMap` only for key types it models, which `String` is not.
pub struct SignatureCache {
    entries: Vec<(String, SignatureInfo)>,
}

/// What `check_signature` found.
#[derive(Debug)]
pub enum SignatureCheck {
    /// The verdict is known without checking the file.
    Known(SignatureInfo),
    /// The file has to be verified, and the verdict recorded.
    NeedsVerification,
}

impl SignatureCache {
    /// Every cached verdict is well formed.
    #[verifier::type_invariant]
    spec fn all_well_formed(self) -> bool {
        forall|i: int| 0 <= i < self.entries@.len() ==> is_well_formed(#[trigger] self.entries@[i].1)
    }

    /// The verdict cached for `path`, if any.
    pub closed spec fn cached(&self, path: Seq<char>) -> Option<SignatureInfo> {
        cached_in(self.entries@, path)
    }

    /// A cache that knows nothing yet.
    pub fn new() -> (c: SignatureCache)
        ensures
            forall|p: Seq<char>| c.cached(p) is None,
    {
        SignatureCache { entries: Vec::new() }
    }

    /// The verdict cached for `path`, if any.
    pub fn lookup(&self, path: &str) -> (r: Option<SignatureInfo>)
        ensures
            r == self.cached(path@),
            r matches Some(info) ==> is_well_formed(info),
    {
        proof {
            use_type_invariant(self);
            cached_is_well_formed(self.entries@, path@);
        }
        let n = self.entries.len();
        assert(self.entries@.skip(0) =~= self.entries@);
        for i in 0..n
            invariant
                n == self.entries@.len(),
                cached_in(self.entries@, path@) == cached_in(self.entries@.skip(i as int), path@),
                cached_in(self.entries@, path@) matches Some(info) ==> is_well_formed(info),
        {
            assert(self.entries@.skip(i as int).drop_first() =~= self.entries@.skip(i + 1));
            if text_is(self.entries[i].0.as_str(), path) {
                return Some(self.entries[i].1.duplicate());
            }
        }
        None
    }

    /// Records the verdict for `path`, replacing any earlier one.
    pub fn record(&mut self, path: &str, info: SignatureInfo)
        requires
            is_well_formed(info),
        ensures
            final(self).cached(path@) == Some(info),
            forall|p: Seq<char>| p != path@ ==> final(self).cached(p) == old(self).cached(p),
    {
        proof {
            use_type_invariant(&*self);
        }
        let ghost old_entries = self.entries@;
        let mut entries: Vec<(String, SignatureInfo)> = Vec::new();
        std::mem::swap(&mut entries, &mut self.entries);
        let entry = (path.to_owned(), info);
        entries.insert(0, entry);
        assert(entries@.drop_first() =~= old_entries);
        assert forall|i: int| 0 <= i < entries@.len() implies is_well_formed(
            #[trigger] entries@[i].1,
        ) by {
            if i > 0 {
                assert(entries@[i] == old_entries[i - 1]);
            }
        }
        self.entries = entries;
    }
}

/// Decides whether a signature check needs the file: an empty path has no
/// signature, a path already checked has its cached verdict, and any other
/// path must be verified (and the verdict recorded with
/// `SignatureCache::record`).
pub fn check_signature(cache: &SignatureCache, exe_path: &str) -> (r: SignatureCheck)
    ensures
        exe_path@.len() == 0 ==> (r matches SignatureCheck::Known(info) && is_no_signature(info)),
        exe_path@.len() > 0 ==> match cache.cached(exe_path@) {
            Some(info) => r == SignatureCheck::Known(info),
            None => r is NeedsVerification,
        },
        r matches SignatureCheck::Known(info) ==> is_well_formed(info),
{
    let path = chars_of(exe_path);
    if path.len() == 0 {
        return SignatureCheck::Known(SignatureInfo::unsigned_no_signature());
    }
    match cache.lookup(exe_path) {
        Some(info) => SignatureCheck::Known(info),
        None => SignatureCheck::NeedsVerification,
    }
}

} // verus!
