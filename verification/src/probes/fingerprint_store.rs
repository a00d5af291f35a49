//! Bounded store of the fingerprints seen since the last upload.

use vstd::prelude::*;

verus! {

/// Most fingerprints the store holds between two uploads.
pub const MAX_FINGERPRINTS: usize = 2048;

/// The fingerprints a fixed-capacity vector holds, oldest first.
pub uninterp spec fn stored_codes(v: heapless::Vec<u16, MAX_FINGERPRINTS>) -> Seq<u16>;

/// `heapless::Vec::new` makes an empty vector.
#[verifier::external_body]
fn codes_new() -> (v: heapless::Vec<u16, MAX_FINGERPRINTS>)
    ensures
        stored_codes(v) == Seq::<u16>::empty(),
{
    heapless::Vec::new()
}

/// `heapless::Vec::push` appends the item when fewer than the capacity,
/// [`MAX_FINGERPRINTS`], are held and reports success; a full vector is left
/// as it is and the item is handed back. A vector never holds more than its
/// capacity.
#[verifier::external_body]
fn codes_push(v: &mut heapless::Vec<u16, MAX_FINGERPRINTS>, code: u16) -> (pushed: bool)
    ensures
        stored_codes(*old(v)).len() <= MAX_FINGERPRINTS,
        pushed == (stored_codes(*old(v)).len() < MAX_FINGERPRINTS),
        pushed ==> stored_codes(*final(v)) == stored_codes(*old(v)).push(code),
        !pushed ==> stored_codes(*final(v)) == stored_codes(*old(v)),
{
    v.push(code).is_ok()
}

/// `heapless::Vec::clear` removes every item.
#[verifier::external_body]
fn codes_clear(v: &mut heapless::Vec<u16, MAX_FINGERPRINTS>)
    ensures
        stored_codes(*final(v)) == Seq::<u16>::empty(),
{
    v.clear()
}

/// `heapless::Vec::as_slice` shows the items held, oldest first; there are
/// never more of them than the capacity.
#[verifier::external_body]
fn codes_as_slice(v: &heapless::Vec<u16, MAX_FINGERPRINTS>) -> (items: &[u16])
    ensures
        items@ == stored_codes(*v),
        items@.len() <= MAX_FINGERPRINTS,
{
    v.as_slice()
}

/// Fingerprints collected since the last upload, in arrival order.
///
/// The store never grows past [`MAX_FINGERPRINTS`]: a push into a full store
/// is refused and the caller is told, nothing is evicted silently.
pub struct FingerprintBuffer {
    codes: heapless::Vec<u16, MAX_FINGERPRINTS>,
}

impl View for FingerprintBuffer {
    type V = Seq<u16>;

    closed spec fn view(&self) -> Seq<u16> {
        stored_codes(self.codes)
    }
}

impl FingerprintBuffer {
    /// An empty store.
    pub fn new() -> (store: Self)
        ensures
            store@ == Seq::<u16>::empty(),
    {
        FingerprintBuffer { codes: codes_new() }
    }

    /// Number of fingerprints held.
    pub fn len(&self) -> (n: usize)
        ensures
            n == self@.len(),
            n <= MAX_FINGERPRINTS,
    {
        codes_as_slice(&self.codes).len()
    }

    /// Appends a fingerprint. Returns `false`, leaving the store unchanged,
    /// exactly when it already holds [`MAX_FINGERPRINTS`].
    pub fn push(&mut self, fingerprint: u16) -> (pushed: bool)
        ensures
            old(self)@.len() <= MAX_FINGERPRINTS,
            !pushed <==> old(self)@.len() == MAX_FINGERPRINTS,
            pushed ==> final(self)@ == old(self)@.push(fingerprint),
            pushed ==> final(self)@.len() == old(self)@.len() + 1,
            !pushed ==> final(self)@ == old(self)@,
    {
        codes_push(&mut self.codes, fingerprint)
    }

    /// Empties the store.
    pub fn drain(&mut self)
        ensures
            final(self)@ == Seq::<u16>::empty(),
    {
        codes_clear(&mut self.codes)
    }

    /// A copy of the fingerprints held, in arrival order.
    pub fn snapshot(&self) -> (codes: Vec<u16>)
        ensures
            codes@ == self@,
    {
        let items = codes_as_slice(&self.codes);
        let mut out: Vec<u16> = Vec::new();
        let mut i: usize = 0;
        while i < items.len()
            invariant
                i <= items.len(),
                out@ == items@.take(i as int),
            decreases items.len() - i,
        {
            out.push(items[i]);
            assert(items@.take(i as int).push(items@[i as int]) =~= items@.take(i + 1));
            i += 1;
        }
        assert(items@.take(i as int) =~= items@);
        out
    }
}

} // verus!
