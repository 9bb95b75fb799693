use vstd::prelude::*;
use vstd::string::StringSliceAdditionalSpecFns;
use vstd::utf8::valid_utf8;

verus! {

#[verifier::external_type_specification]
#[verifier::external_body]
pub struct ExFmtError(core::fmt::Error);

/// `core::str::from_utf8`: the bytes read as a string slice when they are valid UTF-8,
/// `None` otherwise; the slice then holds exactly those bytes.
#[verifier::external_body]
fn str_from_utf8(bytes: &[u8]) -> (r: Option<&str>)
    ensures
        r is Some <==> valid_utf8(bytes@),
        r matches Some(s) ==> s.spec_bytes() == bytes@,
{
    core::str::from_utf8(bytes).ok()
}

/// `core::fmt::Error::default()`: the formatting error, a value without fields.
#[verifier::external_body]
fn fmt_error() -> core::fmt::Error {
    core::fmt::Error::default()
}

/// A string of at most `MAX_SIZE` bytes kept in a fixed buffer.
#[derive(Clone, Copy)]
pub struct StackString<const MAX_SIZE: usize> {
    pub data: [u8; MAX_SIZE],
    pub size: usize,
}

impl<const SIZE: usize> Default for StackString<SIZE> {
    fn default() -> (r: Self)
        ensures
            r.wf(),
            r@ == Seq::<u8>::empty(),
    {
        let r = Self { data: [0; SIZE], size: 0 };
        assert(r@ =~= Seq::<u8>::empty());
        r
    }
}

impl<const SIZE: usize> StackString<SIZE> {
    /// The bytes of the string.
    pub open spec fn view(&self) -> Seq<u8> {
        self.data@.subrange(0, self.size as int)
    }

    pub open spec fn wf(&self) -> bool {
        self.size <= SIZE
    }

    /// A string holding the bytes of `value`, which must fit.
    pub fn from(value: &str) -> (r: Self)
        requires
            value.spec_bytes().len() <= SIZE,
        ensures
            r.wf(),
            r@ == value.spec_bytes(),
    {
        let bytes = value.as_bytes();
        let mut s = Self { data: [0; SIZE], size: 0 };
        assert(s@ =~= Seq::<u8>::empty());
        s.append(bytes);
        assert(s@ =~= value.spec_bytes());
        s
    }

    /// Appends the bytes at the end; they must fit.
    pub fn append(&mut self, data_to_append: &[u8])
        requires
            old(self).wf(),
            old(self).size + data_to_append@.len() <= SIZE,
        ensures
            final(self).wf(),
            final(self)@ == old(self)@ + data_to_append@,
    {
        let start = self.size;
        let mut i: usize = 0;
        while i < data_to_append.len()
            invariant
                start == old(self).size,
                start + data_to_append@.len() <= SIZE,
                i <= data_to_append@.len(),
                self.size == start,
                forall|j: int| 0 <= j < start ==> self.data@[j] == old(self).data@[j],
                forall|j: int| 0 <= j < i ==> self.data@[start + j] == data_to_append@[j],
            decreases data_to_append@.len() - i,
        {
            self.data[start + i] = data_to_append[i];
            i = i + 1;
        }
        self.size = start + data_to_append.len();
        assert(self@ =~= old(self)@ + data_to_append@);
    }

    /// The string as a string slice; its bytes must be valid UTF-8.
    pub fn as_str(&self) -> (r: &str)
        requires
            self.wf(),
            valid_utf8(self@),
        ensures
            r.spec_bytes() == self@,
    {
        let bytes = vstd::slice::slice_subrange(self.data.as_slice(), 0, self.size);
        str_from_utf8(bytes).unwrap()
    }

    /// Appends `s`, or leaves the string unchanged and fails when it would not fit.
    pub fn write_str(&mut self, s: &str) -> (r: Result<(), core::fmt::Error>)
        requires
            old(self).wf(),
        ensures
            final(self).wf(),
            r is Ok <==> old(self).size + s.spec_bytes().len() <= SIZE,
            r is Ok ==> final(self)@ == old(self)@ + s.spec_bytes(),
            r is Err ==> *final(self) == *old(self),
    {
        let bytes = s.as_bytes();
        if bytes.len() > SIZE - self.size {
            return Err(fmt_error());
        }
        self.append(bytes);
        Ok(())
    }
}

/// What a stack string holds when it is built only from string slices is valid UTF-8, so
/// `as_str` accepts it: the empty string is, and writing a string slice keeps it so.
pub proof fn lemma_written_strings_are_utf8(start: Seq<u8>, s: &str)
    requires
        valid_utf8(start),
    ensures
        valid_utf8(Seq::<u8>::empty()),
        valid_utf8(start + s.spec_bytes()),
{
    vstd::utf8::encode_utf8_valid_utf8(s@);
    vstd::utf8::valid_utf8_concat(start, s.spec_bytes());
}

} // verus!
