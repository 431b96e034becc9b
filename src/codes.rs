use vstd::prelude::*;
use vstd::string::StrSliceExecFns;
use crate::ids::{ct_eq, generate_uuid};
use crate::token::Purpose;

verus! {

/// A one-time code as the store holds it for one (user, purpose) pair.
pub struct CodeRecord {
    pub code: Seq<char>,
    pub expires_at: u64,
    pub consumed: bool,
}

/// The number of hex digits in a passcode.
pub const SHORT_CODE_LEN: usize = 8;

/// Whether `c` is a passcode: eight lowercase hex digits.
pub open spec fn short_code(c: Seq<char>) -> bool {
    c.len() == SHORT_CODE_LEN && forall|k: int| 0 <= k < c.len() ==> crate::ids::is_lower_hex(#[trigger] c[k])
}

/// The pair a code is bound to: a user id and a purpose.
pub type CodeKey = (Seq<char>, Purpose);

/// Whether `consume` succeeds: a live code exists for the pair, has not been
/// used, has not expired at `now`, and equals the supplied code.
pub open spec fn consume_ok(m: Map<CodeKey, CodeRecord>, k: CodeKey, code: Seq<char>, now: u64) -> bool {
    m.contains_key(k) && !m[k].consumed && now <= m[k].expires_at && m[k].code == code
}

/// The store after the code of pair `k` was used.
pub open spec fn after_consume(m: Map<CodeKey, CodeRecord>, k: CodeKey) -> Map<CodeKey, CodeRecord> {
    m.insert(k, CodeRecord { code: m[k].code, expires_at: m[k].expires_at, consumed: true })
}

/// The store after a fresh code was issued for pair `k`; it replaces
/// whatever code the pair had.
pub open spec fn after_issue(m: Map<CodeKey, CodeRecord>, k: CodeKey, code: Seq<char>, expires_at: u64) -> Map<CodeKey, CodeRecord> {
    m.insert(k, CodeRecord { code, expires_at, consumed: false })
}

struct CodeEntry {
    user_id: String,
    purpose: Purpose,
    code: String,
    expires_at: u64,
    consumed: bool,
}

spec fn key_of(e: CodeEntry) -> CodeKey {
    (e.user_id@, e.purpose)
}

spec fn record_of(e: CodeEntry) -> CodeRecord {
    CodeRecord { code: e.code@, expires_at: e.expires_at, consumed: e.consumed }
}

/// Short-lived one-time codes, at most one per (user, purpose) pair.
/// Expired and used codes stay inert until replaced.
pub struct OneTimeCodeStore {
    entries: Vec<CodeEntry>,
    records: Ghost<Map<CodeKey, CodeRecord>>,
}

impl View for OneTimeCodeStore {
    type V = Map<CodeKey, CodeRecord>;

    closed spec fn view(&self) -> Map<CodeKey, CodeRecord> {
        self.records@
    }
}

impl OneTimeCodeStore {
    /// Entries are unique per pair and agree with the ghost map.
    pub closed spec fn wf(&self) -> bool {
        &&& forall|i: int, j: int|
            0 <= i < j < self.entries@.len() ==> key_of(self.entries@[i]) != key_of(self.entries@[j])
        &&& forall|i: int|
            0 <= i < self.entries@.len() ==> self.records@.contains_key(#[trigger] key_of(self.entries@[i]))
                && self.records@[key_of(self.entries@[i])] == record_of(self.entries@[i])
        &&& forall|k: CodeKey|
            #[trigger] self.records@.contains_key(k) ==> exists|i: int|
                0 <= i < self.entries@.len() && #[trigger] key_of(self.entries@[i]) == k
    }

    /// An empty store.
    pub fn new() -> (r: OneTimeCodeStore)
        ensures
            r.wf(),
            r@ == Map::<CodeKey, CodeRecord>::empty(),
    {
        OneTimeCodeStore { entries: Vec::new(), records: Ghost(Map::empty()) }
    }

    /// The index of the entry of (`user_id`, `purpose`).
    fn find(&self, user_id: &str, purpose: Purpose) -> (r: Option<usize>)
        requires
            self.wf(),
        ensures
            r matches Some(i) ==> i < self.entries@.len() && key_of(self.entries@[i as int]) == (user_id@, purpose),
            r is None ==> !self@.contains_key((user_id@, purpose)),
    {
        let mut i: usize = 0;
        while i < self.entries.len()
            invariant
                i <= self.entries@.len(),
                forall|j: int| 0 <= j < i ==> key_of(self.entries@[j]) != (user_id@, purpose),
            decreases self.entries@.len() - i,
        {
            let e = &self.entries[i];
            if e.purpose == purpose && ct_eq(e.user_id.as_str(), user_id) {
                return Some(i);
            }
            i = i + 1;
        }
        None
    }

    /// Stores `code` as the one live code of (`user_id`, `purpose`), valid
    /// up to and including `expires_at`; any earlier code of the pair is gone.
    pub fn issue_code(&mut self, user_id: &str, purpose: Purpose, code: String, expires_at: u64)
        requires
            old(self).wf(),
        ensures
            final(self).wf(),
            final(self)@ == after_issue(old(self)@, (user_id@, purpose), code@, expires_at),
    {
        let ghost k = (user_id@, purpose);
        let ghost rec = CodeRecord { code: code@, expires_at, consumed: false };
        let entry = CodeEntry { user_id: user_id.to_owned(), purpose, code, expires_at, consumed: false };
        assert(key_of(entry) == k && record_of(entry) == rec);
        match self.find(user_id, purpose) {
            Some(i) => {
                self.entries.set(i, entry);
                self.records = Ghost(self.records@.insert(k, rec));
                assert forall|q: CodeKey| #[trigger] self.records@.contains_key(q) implies exists|j: int|
                    0 <= j < self.entries@.len() && #[trigger] key_of(self.entries@[j]) == q by {
                    if q != k {
                        let j = choose|j: int| 0 <= j < old(self).entries@.len() && #[trigger] key_of(old(self).entries@[j]) == q;
                        assert(key_of(self.entries@[j]) == q);
                    } else {
                        assert(key_of(self.entries@[i as int]) == q);
                    }
                }
            },
            None => {
                self.entries.push(entry);
                self.records = Ghost(self.records@.insert(k, rec));
                let ghost n = self.entries@.len() - 1;
                assert forall|q: CodeKey| #[trigger] self.records@.contains_key(q) implies exists|j: int|
                    0 <= j < self.entries@.len() && #[trigger] key_of(self.entries@[j]) == q by {
                    if q != k {
                        let j = choose|j: int| 0 <= j < old(self).entries@.len() && #[trigger] key_of(old(self).entries@[j]) == q;
                        assert(key_of(self.entries@[j]) == q);
                    } else {
                        assert(key_of(self.entries@[n]) == q);
                    }
                }
            },
        }
    }

    /// Issues a fresh random code for (`user_id`, `purpose`), valid from `now`
    /// for `ttl` seconds, replacing any earlier code of the pair. A passcode
    /// is short, eight hex digits, to be typed; the other codes are whole
    /// random UUIDs.
    pub fn issue(&mut self, user_id: &str, purpose: Purpose, now: u64, ttl: u64) -> (r: String)
        requires
            old(self).wf(),
            now + ttl <= u64::MAX,
        ensures
            final(self).wf(),
            final(self)@ == after_issue(old(self)@, (user_id@, purpose), r@, (now + ttl) as u64),
            purpose == Purpose::OtpChallenge ==> short_code(r@),
            purpose != Purpose::OtpChallenge ==> crate::ids::uuid_v4_text(r@),
    {
        let id = generate_uuid();
        let code = if purpose == Purpose::OtpChallenge {
            id.as_str().substring_char(0, SHORT_CODE_LEN).to_owned()
        } else {
            id
        };
        let out = code.clone();
        self.issue_code(user_id, purpose, code, now + ttl);
        out
    }

    /// Whether `consume` would succeed now, without using the code.
    pub fn accepts(&self, user_id: &str, purpose: Purpose, code: &str, now: u64) -> (r: bool)
        requires
            self.wf(),
        ensures
            r == consume_ok(self@, (user_id@, purpose), code@, now),
    {
        match self.find(user_id, purpose) {
            None => false,
            Some(i) => {
                let e = &self.entries[i];
                assert(self@[(user_id@, purpose)] == record_of(self.entries@[i as int]));
                let same = ct_eq(e.code.as_str(), code);
                !e.consumed && now <= e.expires_at && same
            },
        }
    }

    /// Uses the code of (`user_id`, `purpose`) if `code` is that live,
    /// unexpired, unused code; it then cannot be used again. Every failure
    /// looks the same and changes nothing.
    pub fn consume(&mut self, user_id: &str, purpose: Purpose, code: &str, now: u64) -> (r: bool)
        requires
            old(self).wf(),
        ensures
            final(self).wf(),
            r == consume_ok(old(self)@, (user_id@, purpose), code@, now),
            final(self)@ == if r { after_consume(old(self)@, (user_id@, purpose)) } else { old(self)@ },
    {
        let ghost k = (user_id@, purpose);
        match self.find(user_id, purpose) {
            None => false,
            Some(i) => {
                let e = &self.entries[i];
                assert(self@[k] == record_of(self.entries@[i as int]));
                let same = ct_eq(e.code.as_str(), code);
                if e.consumed || now > e.expires_at || !same {
                    return false;
                }
                let entry = CodeEntry {
                    user_id: e.user_id.clone(),
                    purpose: e.purpose,
                    code: e.code.clone(),
                    expires_at: e.expires_at,
                    consumed: true,
                };
                let ghost rec = CodeRecord { code: self@[k].code, expires_at: self@[k].expires_at, consumed: true };
                assert(key_of(entry) == k && record_of(entry) == rec);
                self.entries.set(i, entry);
                self.records = Ghost(self.records@.insert(k, rec));
                assert forall|q: CodeKey| #[trigger] self.records@.contains_key(q) implies exists|j: int|
                    0 <= j < self.entries@.len() && #[trigger] key_of(self.entries@[j]) == q by {
                    let j = choose|j: int| 0 <= j < old(self).entries@.len() && #[trigger] key_of(old(self).entries@[j]) == q;
                    if q != k {
                        assert(key_of(self.entries@[j]) == q);
                    } else {
                        assert(key_of(self.entries@[i as int]) == q);
                    }
                }
                true
            },
        }
    }
}

/// A code that was used once cannot be used again, at any later time.
pub proof fn lemma_consume_once(m: Map<CodeKey, CodeRecord>, k: CodeKey, code: Seq<char>, now: u64, later: u64)
    requires
        consume_ok(m, k, code, now),
    ensures
        !consume_ok(after_consume(m, k), k, code, later),
{
}

/// Issuing a new code for a pair invalidates the code it had before, unless
/// the new code happens to be the same string.
pub proof fn lemma_reissue_invalidates(
    m: Map<CodeKey, CodeRecord>,
    k: CodeKey,
    earlier: Seq<char>,
    fresh: Seq<char>,
    expires_at: u64,
    now: u64,
)
    requires
        earlier != fresh,
    ensures
        !consume_ok(after_issue(m, k, fresh, expires_at), k, earlier, now),
{
}

} // verus!
