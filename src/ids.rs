use vstd::prelude::*;

verus! {

/// Whether `c` is a lowercase hexadecimal digit.
pub open spec fn is_lower_hex(c: char) -> bool {
    ('0' <= c && c <= '9') || ('a' <= c && c <= 'f')
}

/// Whether `s` is a version-4, RFC 4122 variant UUID in lowercase hyphenated
/// form: 8-4-4-4-12 hex digits, version digit 4, variant digit 8, 9, a or b.
pub open spec fn uuid_v4_text(s: Seq<char>) -> bool {
    &&& s.len() == 36
    &&& forall|k: int| 0 <= k < 36 ==> if k == 8 || k == 13 || k == 18 || k == 23 {
        s[k] == '-'
    } else {
        is_lower_hex(#[trigger] s[k])
    }
    &&& s[14] == '4'
    &&& s[19] == '8' || s[19] == '9' || s[19] == 'a' || s[19] == 'b'
}

/// Relies on uuid's `Uuid::new_v4`, which masks in the version and variant
/// bits, and its `Display`, which writes the lowercase hyphenated form.
#[verifier::external_body]
fn new_v4_string() -> (r: String)
    ensures
        uuid_v4_text(r@),
{
    uuid::Uuid::new_v4().to_string()
}

/// A fresh random identifier in hyphenated UUID form.
pub fn generate_uuid() -> (r: String)
    ensures
        uuid_v4_text(r@),
        r@.len() == 36,
{
    new_v4_string()
}

/// Compares two strings in time that depends on their byte lengths only,
/// not on where they first differ.
pub fn ct_eq(a: &str, b: &str) -> (r: bool)
    ensures
        r == (a@ == b@),
{
    broadcast use vstd::utf8::encode_utf8_decode_utf8, vstd::utf8::encode_utf8_valid_utf8;
    let ab = a.as_bytes();
    let bb = b.as_bytes();
    if ab.len() != bb.len() {
        assert(ab@ != bb@);
        return false;
    }
    let mut diff: u8 = 0;
    let mut i: usize = 0;
    assert(ab@.subrange(0, 0) =~= bb@.subrange(0, 0));
    while i < ab.len()
        invariant
            ab@.len() == bb@.len(),
            i <= ab@.len(),
            (diff == 0) <==> (ab@.subrange(0, i as int) == bb@.subrange(0, i as int)),
        decreases ab@.len() - i,
    {
        let x = ab[i];
        let y = bb[i];
        let d = diff;
        assert(((d | (x ^ y)) == 0) <==> (d == 0 && x == y)) by (bit_vector);
        diff = diff | (x ^ y);
        assert(ab@.subrange(0, i + 1) == ab@.subrange(0, i as int).push(x));
        assert(bb@.subrange(0, i + 1) == bb@.subrange(0, i as int).push(y));
        proof {
            if ab@.subrange(0, i + 1) == bb@.subrange(0, i + 1) {
                assert(ab@.subrange(0, i as int) == ab@.subrange(0, i + 1).drop_last());
                assert(bb@.subrange(0, i as int) == bb@.subrange(0, i + 1).drop_last());
                assert(x == ab@.subrange(0, i + 1).last());
            }
        }
        i = i + 1;
    }
    assert(ab@.subrange(0, ab@.len() as int) == ab@);
    assert(bb@.subrange(0, bb@.len() as int) == bb@);
    if diff == 0 {
        assert(a@ == vstd::utf8::decode_utf8(ab@));
        true
    } else {
        false
    }
}

} // verus!
