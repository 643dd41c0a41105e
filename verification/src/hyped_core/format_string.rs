//! Formatting text into a fixed buffer without allocating.

use vstd::prelude::*;
use vstd::slice::slice_subrange;
use vstd::string::StringSliceAdditionalSpecFns;
use vstd::utf8::{encode_utf8_decode_utf8, encode_utf8_valid_utf8, valid_utf8, valid_utf8_concat};

verus! {

/// Writing did not fit in the buffer, or the buffer's text cannot be read.
#[derive(Debug, Clone, Copy, PartialEq, Eq, Structural)]
pub struct FormatError;

/// Text written into a borrowed byte buffer. `used` counts every byte that
/// was offered, including those that did not fit; as long as everything
/// fitted, the bytes in use are valid UTF-8.
pub struct FormatString<'a> {
    buffer: &'a mut [u8],
    used: usize,
}

/// The UTF-8 text that a byte slice holds, if it is valid UTF-8.
#[verifier::external_body]
fn utf8_text(bytes: &[u8]) -> (r: Option<&str>)
    ensures
        r is Some <==> valid_utf8(bytes@),
        r matches Some(s) ==> s.spec_bytes() == bytes@,
{
    core::str::from_utf8(bytes).ok()
}

/// The buffer after writing `text` at `used`: as much of the text as fits,
/// the rest of the buffer unchanged.
pub open spec fn written_bytes(buffer: Seq<u8>, used: nat, text: Seq<u8>) -> Seq<u8> {
    let n = if text.len() <= buffer.len() - used { text.len() } else { (buffer.len() - used) as nat };
    buffer.take(used as int) + text.take(n as int) + buffer.skip((used + n) as int)
}

/// The bytes and the count of offered bytes after offering `text` to a buffer
/// holding `bytes` of which `used` are offered: nothing changes once the buffer
/// was overrun.
pub open spec fn write_step(bytes: Seq<u8>, used: nat, text: Seq<u8>) -> (Seq<u8>, nat) {
    if used > bytes.len() {
        (bytes, used)
    } else {
        (written_bytes(bytes, used, text), used + text.len())
    }
}

/// The bytes and the count after offering each of `texts` in turn.
pub open spec fn write_all(bytes: Seq<u8>, used: nat, texts: Seq<Seq<u8>>) -> (Seq<u8>, nat)
    decreases texts.len(),
{
    if texts.len() == 0 {
        (bytes, used)
    } else {
        let (b, u) = write_all(bytes, used, texts.drop_last());
        write_step(b, u, texts.last())
    }
}

/// The texts one after the other.
pub open spec fn concat_all(texts: Seq<Seq<u8>>) -> Seq<u8>
    decreases texts.len(),
{
    if texts.len() == 0 {
        Seq::empty()
    } else {
        concat_all(texts.drop_last()) + texts.last()
    }
}

/// Writing `a` and then `b` from an offset inside the buffer writes the same
/// bytes as writing `a + b`; once `a` overruns the buffer, `b` changes nothing.
proof fn lemma_write_twice(buf: Seq<u8>, u: nat, a: Seq<u8>, b: Seq<u8>)
    requires
        u <= buf.len(),
    ensures
        written_bytes(buf, u, a).len() == buf.len(),
        u + a.len() > buf.len() ==> written_bytes(buf, u, a) == written_bytes(buf, u, a + b),
        u + a.len() <= buf.len() ==> write_step(written_bytes(buf, u, a), u + a.len(), b) == (
            written_bytes(buf, u, a + b),
            u + a.len() + b.len(),
        ),
{
    let w = written_bytes(buf, u, a);
    if u + a.len() > buf.len() {
        assert((a + b).take(buf.len() - u) =~= a.take(buf.len() - u));
        assert(w =~= written_bytes(buf, u, a + b));
    } else {
        assert(w =~= buf.take(u as int) + a + buf.skip((u + a.len()) as int));
        let nb: int = if b.len() <= buf.len() - u - a.len() {
            b.len() as int
        } else {
            buf.len() - u - a.len()
        };
        assert(written_bytes(w, u + a.len(), b) =~= buf.take(u as int) + a + b.take(nb) + buf.skip(
            u + a.len() + nb,
        ));
        assert((a + b).take(a.len() + nb) =~= a + b.take(nb));
        assert(written_bytes(buf, u, a + b) =~= buf.take(u as int) + (a + b).take(a.len() + nb)
            + buf.skip(u + a.len() + nb));
    }
}

/// Offering texts one after the other to a fresh buffer writes their
/// concatenation: the bytes are those of writing the concatenation at once,
/// the buffer is overrun exactly when the concatenation does not fit, and
/// otherwise the text in use is exactly the concatenation.
pub proof fn lemma_writes_concatenate(bytes: Seq<u8>, texts: Seq<Seq<u8>>)
    ensures
        write_all(bytes, 0, texts).0 == written_bytes(bytes, 0, concat_all(texts)),
        write_all(bytes, 0, texts).0.len() == bytes.len(),
        (write_all(bytes, 0, texts).1 <= bytes.len()) == (concat_all(texts).len() <= bytes.len()),
        write_all(bytes, 0, texts).1 <= bytes.len() ==> {
            &&& write_all(bytes, 0, texts).1 == concat_all(texts).len()
            &&& write_all(bytes, 0, texts).0.take(write_all(bytes, 0, texts).1 as int)
                == concat_all(texts)
        },
    decreases texts.len(),
{
    let c = concat_all(texts);
    if texts.len() == 0 {
        assert(written_bytes(bytes, 0, Seq::empty()) =~= bytes);
    } else {
        let prev = concat_all(texts.drop_last());
        lemma_writes_concatenate(bytes, texts.drop_last());
        lemma_write_twice(bytes, 0, prev, texts.last());
    }
    lemma_write_twice(bytes, 0, c, Seq::empty());
    if c.len() <= bytes.len() {
        assert(written_bytes(bytes, 0, c).take(c.len() as int) =~= c);
    }
}

impl<'a> FormatString<'a> {
    #[verifier::type_invariant]
    spec fn inv(self) -> bool {
        self.used <= self.buffer@.len() ==> valid_utf8(self.buffer@.take(self.used as int))
    }

    /// The bytes of the buffer.
    pub closed spec fn bytes(&self) -> Seq<u8> {
        self.buffer@
    }

    /// The borrowed buffer: its final value is what the caller's buffer holds
    /// once the text is no longer written to.
    pub closed spec fn buffer_ref(&self) -> &'a mut [u8] {
        self.buffer
    }

    /// The number of bytes offered so far.
    pub closed spec fn used(&self) -> nat {
        self.used as nat
    }

    pub fn new(buffer: &'a mut [u8]) -> (r: Self)
        ensures
            r.bytes() == old(buffer)@,
            r.used() == 0,
            final(r.buffer_ref())@ == final(buffer)@,
    {
        assert(valid_utf8(buffer@.take(0))) by {
            assert(buffer@.take(0) =~= Seq::<u8>::empty());
            assert(Seq::<char>::empty() =~= Seq::<char>::empty());
            encode_utf8_valid_utf8(Seq::<char>::empty());
            assert(vstd::utf8::encode_utf8(Seq::<char>::empty()) =~= Seq::<u8>::empty());
        }
        FormatString { buffer, used: 0 }
    }

    /// The text written so far, if all of it fitted in the buffer.
    pub fn as_str(self) -> (r: Option<&'a str>)
        ensures
            r is Some <==> self.used() <= self.bytes().len(),
            r matches Some(s) ==> s.spec_bytes() == self.bytes().take(self.used() as int),
            final(self.buffer_ref())@ == self.bytes(),
    {
        proof {
            use_type_invariant(&self);
        }
        let FormatString { buffer, used } = self;
        let buf: &'a [u8] = buffer;
        if used <= buf.len() {
            let bytes = slice_subrange(buf, 0, used);
            assert(bytes@ =~= buf@.take(used as int));
            utf8_text(bytes)
        } else {
            None
        }
    }

    /// Writes as much of `s` as fits after the bytes in use; fails when the
    /// buffer was already overrun or when `s` does not fit whole.
    pub fn write_str(&mut self, s: &str) -> (r: Result<(), FormatError>)
        requires
            old(self).used() + s.spec_bytes().len() <= usize::MAX,
        ensures
            old(self).used() > old(self).bytes().len() ==> r is Err && *final(self) == *old(self),
            old(self).used() <= old(self).bytes().len() ==> {
                &&& final(self).bytes() == written_bytes(
                    old(self).bytes(),
                    old(self).used(),
                    s.spec_bytes(),
                )
                &&& final(self).used() == old(self).used() + s.spec_bytes().len()
                &&& r is Ok <==> old(self).used() + s.spec_bytes().len() <= old(self).bytes().len()
            },
            final(final(self).buffer_ref())@ == final(old(self).buffer_ref())@,
            (final(self).bytes(), final(self).used()) == write_step(
                old(self).bytes(),
                old(self).used(),
                s.spec_bytes(),
            ),
    {
        proof {
            use_type_invariant(&*self);
        }
        if self.used > self.buffer.len() {
            return Err(FormatError);
        }
        let raw_s = s.as_bytes();
        let remaining = self.buffer.len() - self.used;
        let write_num = if raw_s.len() < remaining {
            raw_s.len()
        } else {
            remaining
        };
        let ghost start = self.buffer@;
        let used = self.used;
        let mut i: usize = 0;
        while i < write_num
            invariant
                used == self.used,
                used <= start.len(),
                write_num <= raw_s@.len(),
                write_num <= start.len() - used,
                used + write_num <= start.len(),
                start.len() <= usize::MAX,
                self.buffer@.len() == start.len(),
                i <= write_num,
                self.buffer@ =~= start.take(used as int) + raw_s@.take(i as int) + start.skip(
                    used + i,
                ),
                used <= self.buffer@.len() ==> valid_utf8(self.buffer@.take(used as int)),
                final(self.buffer)@ == final(old(self).buffer)@,
            decreases write_num - i,
        {
            proof {
                assert(self.buffer@.take(used as int) =~= start.take(used as int));
                assert(self.buffer@.update((used + i) as int, raw_s@[i as int]).take(used as int)
                    =~= start.take(used as int));
            }
            self.buffer[used + i] = raw_s[i];
            i = i + 1;
            proof {
                assert(self.buffer@.take(used as int) =~= start.take(used as int));
            }
        }
        proof {
            let b = s.spec_bytes();
            encode_utf8_valid_utf8(s@);
            if write_num == b.len() {
                assert(self.buffer@.take((used + write_num) as int) =~= start.take(used as int)
                    + b);
                valid_utf8_concat(start.take(used as int), b);
            }
        }
        self.used = used + raw_s.len();
        if write_num < raw_s.len() {
            Err(FormatError)
        } else {
            Ok(())
        }
    }
}

/// Writes `text` into `buffer` and returns the text as it stands there, or
/// an error when it does not fit.
pub fn show<'a>(buffer: &'a mut [u8; 1024], text: &str) -> (r: Result<&'a str, FormatError>)
    ensures
        r is Ok <==> text.spec_bytes().len() <= 1024,
        r matches Ok(s) ==> s@ == text@ && s.spec_bytes() == text.spec_bytes(),
        final(buffer)@ == written_bytes(old(buffer)@, 0, text.spec_bytes()),
{
    let text_len = text.as_bytes().len();
    let mut w = FormatString::new(vstd::array::ref_mut_array_unsizing_coercion(buffer));
    match w.write_str(text) {
        Ok(()) => {},
        Err(e) => {
            return Err(e);
        },
    }
    let ghost bytes = w.bytes();
    let r = w.as_str();
    match r {
        Some(s) => {
            proof {
                assert(bytes.take(text.spec_bytes().len() as int) =~= text.spec_bytes());
                encode_utf8_decode_utf8(s@);
                encode_utf8_decode_utf8(text@);
            }
            Ok(s)
        },
        None => Err(FormatError),
    }
}

} // verus!
