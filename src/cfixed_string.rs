use vstd::prelude::*;
use vstd::string::StringSliceAdditionalSpecFns;

verus! {

/// Text in the form the engine's entry points take: the bytes of the text
/// followed by one terminating zero byte, with no zero byte before it.
///
/// The value owns its buffer; an engine call borrows it for the duration of
/// that call only.
#[derive(Debug)]
pub struct CFixedString {
    bytes: Vec<u8>,
}

/// The text held a zero byte, which the terminated form cannot carry.
#[derive(Debug, Clone, Copy, PartialEq, Eq, Structural)]
pub struct NulError {
    /// Index of the first zero byte of the text.
    pub position: usize,
}

/// `p` is the index of the first zero byte of `text`.
pub open spec fn is_first_nul(text: Seq<u8>, p: int) -> bool {
    &&& 0 <= p < text.len()
    &&& text[p] == 0
    &&& forall|j: int| 0 <= j < p ==> text[j] != 0
}

/// `r` is the outcome owed for marshalling `text`: the text with a
/// terminator appended when it holds no zero byte, and otherwise an error
/// that names its first zero byte.
pub open spec fn marshalled_as(r: Result<CFixedString, NulError>, text: Seq<u8>) -> bool {
    match r {
        Ok(c) => !text.contains(0u8) && c@ == text.push(0u8),
        Err(e) => is_first_nul(text, e.position as int),
    }
}

impl View for CFixedString {
    type V = Seq<u8>;

    closed spec fn view(&self) -> Seq<u8> {
        self.bytes@
    }
}

impl CFixedString {
    /// The bytes end in the only zero byte they hold.
    pub open spec fn wf(&self) -> bool {
        &&& self@.len() > 0
        &&& self@.last() == 0
        &&& forall|j: int| 0 <= j < self@.len() - 1 ==> self@[j] != 0
    }

    /// Marshals `s`: its UTF-8 bytes and a terminator, or the position of
    /// the first zero byte in it.
    pub fn from_str(s: &str) -> (r: Result<CFixedString, NulError>)
        ensures
            marshalled_as(r, s.spec_bytes()),
            r matches Ok(c) ==> c.wf(),
    {
        let src = s.as_bytes();
        let n = src.len();
        let mut bytes: Vec<u8> = Vec::new();
        let mut i: usize = 0;
        while i < n
            invariant
                n == src@.len(),
                src@ == s.spec_bytes(),
                i <= n,
                bytes@ == src@.subrange(0, i as int),
                forall|j: int| 0 <= j < i ==> src@[j] != 0,
            decreases n - i,
        {
            let b = src[i];
            if b == 0 {
                return Err(NulError { position: i });
            }
            bytes.push(b);
            i = i + 1;
        }
        assert(bytes@ == src@);
        assert(!src@.contains(0u8));
        bytes.push(0);
        Ok(CFixedString { bytes })
    }

    /// The terminated bytes, terminator included.
    pub fn as_bytes_with_nul(&self) -> (r: &[u8])
        ensures
            r@ == self@,
    {
        self.bytes.as_slice()
    }

    /// Number of bytes of the text, terminator excluded.
    pub fn text_len(&self) -> (r: usize)
        requires
            self.wf(),
        ensures
            r == self@.len() - 1,
    {
        self.bytes.len() - 1
    }
}

} // verus!
