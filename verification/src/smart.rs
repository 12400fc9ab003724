//! The fixed-layout health record a card returns from the final knock
//! command: a two-byte magic signature at offset 162, a raw health byte at
//! offset 192, and up to 32 bytes of firmware-version text at offset 224.

use vstd::prelude::*;

use crate::errors::ScsiError;

verus! {

broadcast use vstd::array::group_array_axioms;

/// The magic signature a genuine health record carries at offset 162.
pub open spec fn spec_signature_magic() -> Seq<u8> {
    seq![0x09u8, 0x33u8]
}

/// Whether a byte is printable ASCII (visible, not space).
pub open spec fn is_graphic(b: u8) -> bool {
    0x21 <= b <= 0x7e
}

/// The bytes left after dropping leading non-printable bytes.
pub open spec fn spec_trim_front(s: Seq<u8>) -> Seq<u8>
    decreases s.len(),
{
    if s.len() == 0 {
        s
    } else if is_graphic(s[0]) {
        s
    } else {
        spec_trim_front(s.drop_first())
    }
}

/// The bytes left after dropping trailing non-printable bytes.
pub open spec fn spec_trim_back(s: Seq<u8>) -> Seq<u8>
    decreases s.len(),
{
    if s.len() == 0 {
        s
    } else if is_graphic(s[s.len() - 1]) {
        s
    } else {
        spec_trim_back(s.drop_last())
    }
}

/// The span of a byte sequence from its first printable byte through its
/// last: what remains of the firmware-version field once the padding on
/// either side is trimmed away.
pub open spec fn spec_printable_span(s: Seq<u8>) -> Seq<u8> {
    spec_trim_back(spec_trim_front(s))
}

proof fn lemma_trim_front_at(s: Seq<u8>, k: int)
    requires
        0 <= k <= s.len(),
        forall|j: int| 0 <= j < k ==> !is_graphic(s[j]),
        k == s.len() || is_graphic(s[k]),
    ensures
        spec_trim_front(s) == s.subrange(k, s.len() as int),
    decreases k,
{
    if k == 0 {
        assert(s.subrange(0, s.len() as int) =~= s);
    } else {
        let t = s.drop_first();
        assert(t =~= s.subrange(1, s.len() as int));
        lemma_trim_front_at(t, k - 1);
        assert(t.subrange(k - 1, t.len() as int) =~= s.subrange(k, s.len() as int));
    }
}

proof fn lemma_trim_back_at(s: Seq<u8>, k: int)
    requires
        0 <= k <= s.len(),
        forall|j: int| k <= j < s.len() ==> !is_graphic(s[j]),
        k == 0 || is_graphic(s[k - 1]),
    ensures
        spec_trim_back(s) == s.subrange(0, k),
    decreases s.len(),
{
    if k == s.len() {
        assert(s.subrange(0, s.len() as int) =~= s);
    } else {
        let t = s.drop_last();
        assert(t =~= s.subrange(0, s.len() - 1));
        lemma_trim_back_at(t, k);
        assert(t.subrange(0, k) =~= s.subrange(0, k));
    }
}

/// The characters `String::from_utf8_lossy` decodes a byte sequence to.
pub uninterp spec fn lossy_decode(bytes: Seq<u8>) -> Seq<char>;

/// Relies on `String::from_utf8_lossy`: the result is a function of the
/// bytes alone; valid UTF-8 (in particular ASCII) passes through unchanged
/// and invalid sequences are replaced, so the call never fails.  Every
/// decoded character, a replacement included, consumes at least one input
/// byte, so the result is never longer than the input.
#[verifier::external_body]
fn utf8_lossy(bytes: &Vec<u8>) -> (r: String)
    ensures
        r@ == lossy_decode(bytes@),
        r@.len() <= bytes@.len(),
        bytes@.len() == 0 ==> r@.len() == 0,
        (forall|i: int| 0 <= i < bytes@.len() ==> bytes@[i] < 0x80) ==> r@ =~= bytes@.map_values(
            |b: u8| b as char,
        ),
{
    String::from_utf8_lossy(bytes).into_owned()
}

/// Trimming the front never lengthens a sequence.
proof fn lemma_trim_front_len(s: Seq<u8>)
    ensures
        spec_trim_front(s).len() <= s.len(),
    decreases s.len(),
{
    if s.len() > 0 && !is_graphic(s[0]) {
        lemma_trim_front_len(s.drop_first());
    }
}

/// Trimming the back never lengthens a sequence.
proof fn lemma_trim_back_len(s: Seq<u8>)
    ensures
        spec_trim_back(s).len() <= s.len(),
    decreases s.len(),
{
    if s.len() > 0 && !is_graphic(s[s.len() - 1]) {
        lemma_trim_back_len(s.drop_last());
    }
}

/// The printable span is never longer than the field it is cut from.
pub proof fn lemma_printable_span_len(s: Seq<u8>)
    ensures
        spec_printable_span(s).len() <= s.len(),
{
    lemma_trim_front_len(s);
    lemma_trim_back_len(spec_trim_front(s));
}

/// Trim a byte sequence to the span between its first and last printable
/// ASCII bytes.
fn printable_span(bytes: &[u8]) -> (r: Vec<u8>)
    ensures
        r@ == spec_printable_span(bytes@),
{
    let n = bytes.len();
    let mut start: usize = 0;
    while start < n && !(0x21 <= bytes[start] && bytes[start] <= 0x7e)
        invariant
            0 <= start <= n,
            n == bytes@.len(),
            forall|j: int| 0 <= j < start ==> !is_graphic(bytes@[j]),
        decreases n - start,
    {
        start += 1;
    }
    proof {
        lemma_trim_front_at(bytes@, start as int);
    }
    let mut end: usize = n;
    while end > start && !(0x21 <= bytes[end - 1] && bytes[end - 1] <= 0x7e)
        invariant
            start <= end <= n,
            n == bytes@.len(),
            forall|j: int| end <= j < n ==> !is_graphic(bytes@[j]),
        decreases end,
    {
        end -= 1;
    }
    proof {
        let t = bytes@.subrange(start as int, n as int);
        lemma_trim_back_at(t, end - start);
        assert(t.subrange(0, end - start) =~= bytes@.subrange(start as int, end as int));
    }
    let mut r: Vec<u8> = Vec::new();
    let mut i: usize = start;
    while i < end
        invariant
            start <= i <= end <= n,
            n == bytes@.len(),
            r@ =~= bytes@.subrange(start as int, i as int),
        decreases end - i,
    {
        r.push(bytes[i]);
        proof {
            assert(r@ =~= bytes@.subrange(start as int, i + 1));
        }
        i += 1;
    }
    proof {
        assert(r@ =~= bytes@.subrange(start as int, end as int));
    }
    r
}

/// The decoded health record.  Constructed once from the final knock
/// response and immutable thereafter.
#[derive(Debug)]
pub struct SmartData {
    /// The two signature bytes at offset 162, as found in the response.
    pub signature: [u8; 2],
    /// The raw health byte at offset 192.  Its numeric meaning is
    /// unconfirmed; treat it as an opaque byte.
    pub health: u8,
    /// The firmware-version text at offset 224, trimmed to its printable
    /// ASCII span.
    pub firmware_version: String,
}

impl SmartData {
    /// Whether the decoded signature equals the expected magic.  A record
    /// with the wrong signature decodes structurally; only this check tells
    /// it apart.
    pub fn is_valid(&self) -> (r: bool)
        ensures
            r == (self.signature@ == spec_signature_magic()),
    {
        let ok = self.signature[0] == 0x09 && self.signature[1] == 0x33;
        proof {
            if ok {
                assert(self.signature@ =~= spec_signature_magic());
            } else {
                assert(self.signature@ != spec_signature_magic()) by {
                    if self.signature@ == spec_signature_magic() {
                        assert(self.signature@[0] == 0x09);
                        assert(self.signature@[1] == 0x33);
                    }
                }
            }
        }
        ok
    }

    /// Decode a health record from a response buffer.
    ///
    /// Fails with `TruncatedRecord` if the buffer is shorter than the 256
    /// bytes the field layout spans; otherwise reads the three fields at
    /// their fixed offsets.  The signature is not checked here: see
    /// `is_valid`.
    pub fn read(data: &[u8]) -> (r: Result<SmartData, ScsiError>)
        ensures
            r is Ok <==> data@.len() >= 256,
            r matches Err(e) ==> e == ScsiError::TruncatedRecord,
            r matches Ok(rec) ==> rec.signature@ == data@.subrange(162, 164) && rec.health
                == data@[192] && rec.firmware_version@ == lossy_decode(
                spec_printable_span(data@.subrange(224, 256)),
            ) && rec.firmware_version@.len() <= 32,
    {
        if data.len() < 256 {
            return Err(ScsiError::TruncatedRecord);
        }
        let signature: [u8; 2] = [data[162], data[163]];
        proof {
            assert(signature@ =~= data@.subrange(162, 164));
        }
        let health: u8 = data[192];
        let mut fw: Vec<u8> = Vec::new();
        let mut i: usize = 224;
        while i < 256
            invariant
                224 <= i <= 256,
                data@.len() >= 256,
                fw@ =~= data@.subrange(224, i as int),
            decreases 256 - i,
        {
            fw.push(data[i]);
            proof {
                assert(fw@ =~= data@.subrange(224, i + 1));
            }
            i += 1;
        }
        let span = printable_span(fw.as_slice());
        proof {
            lemma_printable_span_len(fw@);
        }
        let firmware_version = utf8_lossy(&span);
        Ok(SmartData { signature, health, firmware_version })
    }
}

} // verus!
