//! The PostgreSQL backend.

use vstd::prelude::*;
use vstd::utf8::encode_utf8;
use crate::database::Database;
use crate::decimal::append_numeral;
use crate::decimal::denoted;
use crate::decimal::numeral;
use crate::decimal::numeral_denotes;
use crate::encode::Encode;

verus! {

/// PostgreSQL: arguments are serialized into a plain byte vector, and the
/// placeholder of the ordinal `n` is a dollar sign followed by the decimal
/// numeral of `n`.
#[derive(Debug)]
pub struct Postgres;

impl Database for Postgres {
    type ArgumentBuffer<'a> = Vec<u8>;

    open spec fn buffer_bytes<'a>(buf: &Vec<u8>) -> Seq<u8> {
        buf@
    }

    open spec fn placeholder(index: nat) -> Seq<char> {
        seq!['$'] + numeral(index)
    }

    fn new_buffer<'a>() -> (buf: Self::ArgumentBuffer<'a>) {
        Vec::new()
    }

    fn write_placeholder(text: &mut String, index: u16) {
        proof {
            reveal_strlit("$");
            assert("$"@ =~= seq!['$']);
        }
        text.append("$");
        append_numeral(text, index);
    }
}

/// A placeholder names its ordinal: behind the dollar sign stand digits that
/// denote it. So the placeholders of different ordinals differ.
pub proof fn placeholder_names_its_ordinal(index: nat)
    ensures
        Postgres::placeholder(index).len() >= 2,
        Postgres::placeholder(index)[0] == '$',
        denoted(Postgres::placeholder(index).skip(1)) == index,
{
    numeral_denotes(index);
    assert(Postgres::placeholder(index).skip(1) =~= numeral(index));
}

/// The four bytes of `value` in two's complement, most significant byte first.
pub open spec fn be_bytes(value: i32) -> Seq<u8> {
    let unsigned: int = if value < 0 {
        value + 0x1_0000_0000
    } else {
        value as int
    };
    seq![
        (unsigned / 0x100_0000) as u8,
        (unsigned / 0x1_0000 % 0x100) as u8,
        (unsigned / 0x100 % 0x100) as u8,
        (unsigned % 0x100) as u8,
    ]
}

impl<'a> Encode<'a, Postgres> for i32 {
    open spec fn encoding(&self) -> Seq<u8> {
        be_bytes(*self)
    }

    fn encode(&self, buf: &mut Vec<u8>) {
        let unsigned: u32 = if *self < 0 {
            (*self as i64 + 0x1_0000_0000) as u32
        } else {
            *self as u32
        };
        buf.push((unsigned / 0x100_0000) as u8);
        buf.push((unsigned / 0x1_0000 % 0x100) as u8);
        buf.push((unsigned / 0x100 % 0x100) as u8);
        buf.push((unsigned % 0x100) as u8);
        assert(buf@ =~= old(buf)@ + be_bytes(*self));
    }
}

impl<'a, 'b> Encode<'a, Postgres> for &'b str {
    /// Text is bound as its UTF-8 bytes, with nothing before or after them.
    open spec fn encoding(&self) -> Seq<u8> {
        encode_utf8(self@)
    }

    fn encode(&self, buf: &mut Vec<u8>) {
        let bytes = self.as_bytes();
        let mut i: usize = 0;
        while i < bytes.len()
            invariant
                i <= bytes.len(),
                bytes@ == encode_utf8(self@),
                buf@ == old(buf)@ + bytes@.subrange(0, i as int),
            decreases bytes.len() - i,
        {
            buf.push(bytes[i]);
            i += 1;
            assert(buf@ =~= old(buf)@ + bytes@.subrange(0, i as int));
        }
        assert(bytes@.subrange(0, i as int) =~= bytes@);
    }
}

} // verus!
