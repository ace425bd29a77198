//! Printing to the console.
//!
//! Text goes to the console in chunks of at most 32 bytes, none of which ends inside a character.
use crate::raw::Call;
use vstd::prelude::*;
use vstd::string::*;

verus! {

/// The number of bytes in a chunk.
pub const BUF_SIZE: usize = 32;

/// The length of the character that starts with a byte, where one can.
pub open spec fn utf8_len(byte: u8) -> nat {
    if 0xc0 <= byte <= 0xdf {
        2
    } else if 0xe0 <= byte <= 0xef {
        3
    } else if 0xf0 <= byte <= 0xf7 {
        4
    } else {
        1
    }
}

/// The length of the character that starts with a byte, where one can.
pub fn utf8_byte_length(byte: u8) -> (r: usize)
    ensures
        r == utf8_len(byte),
{
    assert((byte & 0b1000_0000 == 0) == (byte < 0x80)) by (bit_vector);
    assert((byte & 0b1110_0000 == 0b1100_0000) == (0xc0 <= byte && byte <= 0xdf)) by (bit_vector);
    assert((byte & 0b1111_0000 == 0b1110_0000) == (0xe0 <= byte && byte <= 0xef)) by (bit_vector);
    assert((byte & 0b1111_1000 == 0b1111_0000) == (0xf0 <= byte && byte <= 0xf7)) by (bit_vector);
    if byte & 0b1000_0000 == 0 {
        1
    } else if byte & 0b1110_0000 == 0b1100_0000 {
        2
    } else if byte & 0b1111_0000 == 0b1110_0000 {
        3
    } else if byte & 0b1111_1000 == 0b1111_0000 {
        4
    } else {
        1
    }
}

/// Whether there is no room for the character that starts with `byte`, so that a chunk ends before
/// it.
pub open spec fn ends_chunk(pending: Seq<u8>, byte: u8) -> bool {
    pending.len() + utf8_len(byte) > BUF_SIZE
}

/// The chunks that are printed for `bytes` after those in `pending`, and the bytes that are left.
pub open spec fn feed(pending: Seq<u8>, bytes: Seq<u8>) -> (Seq<Seq<u8>>, Seq<u8>)
    decreases bytes.len(),
{
    if bytes.len() == 0 {
        (Seq::empty(), pending)
    } else {
        let (chunks, rest) = feed(pending, bytes.drop_last());
        if ends_chunk(rest, bytes.last()) {
            (chunks.push(rest), seq![bytes.last()])
        } else {
            (chunks, rest.push(bytes.last()))
        }
    }
}

/// The chunks that are printed for a text.
pub open spec fn printed(bytes: Seq<u8>) -> Seq<Seq<u8>> {
    let (chunks, rest) = feed(Seq::empty(), bytes);
    if rest.len() == 0 {
        chunks
    } else {
        chunks.push(rest)
    }
}

/// Whether calls print chunks.
pub open spec fn prints(calls: Seq<Call>, chunks: Seq<Seq<u8>>) -> bool {
    &&& calls.len() == chunks.len()
    &&& forall|i: int|
        0 <= i < calls.len() ==> ((#[trigger] calls[i]) matches Call::StrOut { bytes } && bytes@
            == chunks[i])
}

/// The bytes that were not printed yet.
pub struct Context {
    /// How many there are.
    pub count: usize,
    /// They are at its start.
    pub buf: [u8; 32],
}

impl Context {
    /// There are no more bytes than there is room for.
    pub open spec fn wf(self) -> bool {
        self.count <= BUF_SIZE
    }

    /// The bytes.
    pub open spec fn pending(self) -> Seq<u8> {
        self.buf@.take(self.count as int)
    }

    /// No bytes, in a buffer of zeros.
    pub fn new() -> (r: Context)
        ensures
            r.wf(),
            r.pending() == Seq::<u8>::empty(),
            r.count == 0,
            r.buf@ == Seq::new(BUF_SIZE as nat, |i: int| 0u8),
    {
        let r = Context { count: 0, buf: [0u8;32] };
        assert(r.pending() =~= Seq::<u8>::empty());
        r
    }

    /// Add a byte, ending the chunk before it if need be.
    pub fn add_byte(&mut self, b: u8) -> (calls: Vec<Call>)
        requires
            old(self).wf(),
        ensures
            final(self).wf(),
            ends_chunk(old(self).pending(), b) ==> prints(calls@, seq![old(self).pending()])
                && final(self).pending() == seq![b],
            !ends_chunk(old(self).pending(), b) ==> calls@.len() == 0 && final(self).pending()
                == old(self).pending().push(b),
    {
        let mut calls: Vec<Call> = Vec::new();
        if self.count + utf8_byte_length(b) > BUF_SIZE {
            calls = self.flush();
            assert(self.pending().len() == self.count);
        }
        let ghost before = self.pending();
        self.buf[self.count] = b;
        self.count = self.count + 1;
        assert(self.pending() =~= before.push(b));
        assert(Seq::<u8>::empty().push(b) =~= seq![b]);
        calls
    }

    /// Print the bytes, if there are any.
    pub fn flush(&mut self) -> (calls: Vec<Call>)
        requires
            old(self).wf(),
        ensures
            final(self).wf(),
            final(self).pending() == Seq::<u8>::empty(),
            prints(
                calls@,
                if old(self).pending().len() == 0 {
                    Seq::empty()
                } else {
                    seq![old(self).pending()]
                },
            ),
    {
        let mut calls: Vec<Call> = Vec::new();
        if self.count > 0 {
            let mut bytes: Vec<u8> = Vec::new();
            let mut i: usize = 0;
            while i < self.count
                invariant
                    i <= self.count <= BUF_SIZE,
                    *self == *old(self),
                    bytes@ == self.buf@.take(i as int),
                decreases self.count - i,
            {
                bytes.push(self.buf[i]);
                i = i + 1;
                assert(self.buf@.take(i as int) =~= self.buf@.take(i - 1).push(self.buf@[i - 1]));
            }
            calls.push(Call::StrOut { bytes });
            self.count = 0;
        }
        assert(self.pending() =~= Seq::<u8>::empty());
        calls
    }

    /// Add a text.
    pub fn write_str(&mut self, s: &str) -> (calls: Vec<Call>)
        requires
            old(self).wf(),
        ensures
            final(self).wf(),
            prints(calls@, feed(old(self).pending(), s.spec_bytes()).0),
            final(self).pending() == feed(old(self).pending(), s.spec_bytes()).1,
    {
        let bytes = s.as_bytes();
        let mut calls: Vec<Call> = Vec::new();
        let mut i: usize = 0;
        assert(bytes@.take(0) =~= Seq::<u8>::empty());
        while i < bytes.len()
            invariant
                i <= bytes@.len(),
                self.wf(),
                prints(calls@, feed(old(self).pending(), bytes@.take(i as int)).0),
                self.pending() == feed(old(self).pending(), bytes@.take(i as int)).1,
            decreases bytes@.len() - i,
        {
            let ghost before = calls@;
            let ghost rest = self.pending();
            let mut more = self.add_byte(bytes[i]);
            let ghost made = more@;
            calls.append(&mut more);
            i = i + 1;
            proof {
                let taken = bytes@.take(i as int);
                assert(taken.drop_last() =~= bytes@.take(i - 1));
                assert(taken.last() == bytes@[i - 1]);
                assert(calls@ =~= before + made);
                assert forall|j: int| 0 <= j < calls@.len() implies ((#[trigger] calls@[j])
                    matches Call::StrOut { bytes: b } && b@ == feed(
                    old(self).pending(),
                    taken,
                ).0[j]) by {
                    if j < before.len() {
                        assert(calls@[j] == before[j]);
                    } else {
                        assert(calls@[j] == made[j - before.len()]);
                    }
                }
            }
        }
        assert(bytes@.take(bytes@.len() as int) =~= bytes@);
        calls
    }
}

proof fn lemma_prints_concat(a: Seq<Call>, x: Seq<Seq<u8>>, b: Seq<Call>, y: Seq<Seq<u8>>)
    requires
        prints(a, x),
        prints(b, y),
    ensures
        prints(a + b, x + y),
{
    assert forall|i: int| 0 <= i < (a + b).len() implies ((#[trigger] (a + b)[i])
        matches Call::StrOut { bytes } && bytes@ == (x + y)[i]) by {
        if i < a.len() {
            assert((a + b)[i] == a[i]);
        } else {
            assert((a + b)[i] == b[i - a.len()]);
        }
    }
}

/// Print a text.
pub fn printk(text: &str) -> (calls: Vec<Call>)
    ensures
        prints(calls@, printed(text.spec_bytes())),
{
    let mut context = Context::new();
    let mut calls = context.write_str(text);
    let ghost written = calls@;
    let mut last = context.flush();
    let ghost flushed = last@;
    calls.append(&mut last);
    proof {
        let (chunks, rest) = feed(Seq::empty(), text.spec_bytes());
        let end = if rest.len() == 0 {
            Seq::empty()
        } else {
            seq![rest]
        };
        lemma_prints_concat(written, chunks, flushed, end);
        assert(chunks + end =~= printed(text.spec_bytes()));
    }
    calls
}

/// Print a text and the end of the line.
pub fn printkln(text: &str) -> (calls: Vec<Call>)
    ensures
        prints(calls@, printed(text.spec_bytes().push(10))),
{
    let mut context = Context::new();
    let mut calls = context.write_str(text);
    let ghost written = calls@;
    let ghost before = context.pending();
    let mut newline = context.add_byte(10);
    let ghost ended = newline@;
    calls.append(&mut newline);
    let mut last = context.flush();
    let ghost flushed = last@;
    calls.append(&mut last);
    proof {
        let bytes = text.spec_bytes();
        let all = bytes.push(10);
        assert(all.drop_last() =~= bytes);
        let (chunks, rest) = feed(Seq::empty(), bytes);
        let middle = if ends_chunk(rest, 10) {
            seq![rest]
        } else {
            Seq::empty()
        };
        let end = seq![feed(Seq::empty(), all).1];
        lemma_prints_concat(written, chunks, ended, middle);
        lemma_prints_concat(written + ended, chunks + middle, flushed, end);
        assert(chunks + middle + end =~= printed(all));
    }
    calls
}

/// Chunks one after the other.
pub open spec fn concat(chunks: Seq<Seq<u8>>) -> Seq<u8>
    decreases chunks.len(),
{
    if chunks.len() == 0 {
        Seq::empty()
    } else {
        concat(chunks.drop_last()) + chunks.last()
    }
}

proof fn lemma_feed_complete(bytes: Seq<u8>)
    ensures
        concat(feed(Seq::empty(), bytes).0) + feed(Seq::empty(), bytes).1 == bytes,
    decreases bytes.len(),
{
    if bytes.len() > 0 {
        lemma_feed_complete(bytes.drop_last());
        let (chunks, rest) = feed(Seq::empty(), bytes.drop_last());
        let last = bytes.last();
        assert(bytes =~= bytes.drop_last().push(last));
        if ends_chunk(rest, last) {
            assert(chunks.push(rest).drop_last() =~= chunks);
            assert(concat(chunks.push(rest)) + seq![last] =~= (concat(chunks) + rest).push(last));
        } else {
            assert(concat(chunks) + rest.push(last) =~= (concat(chunks) + rest).push(last));
        }
    } else {
        assert(concat(Seq::<Seq<u8>>::empty()) + Seq::<u8>::empty() =~= bytes);
    }
}

/// Nothing is lost or reordered: the chunks that are printed are together the text.
pub proof fn law_output_complete(bytes: Seq<u8>)
    ensures
        concat(printed(bytes)) == bytes,
{
    lemma_feed_complete(bytes);
    let (chunks, rest) = feed(Seq::empty(), bytes);
    if rest.len() == 0 {
        assert(concat(chunks) + rest =~= concat(chunks));
    } else {
        assert(chunks.push(rest).drop_last() =~= chunks);
    }
}

proof fn lemma_feed_sizes(bytes: Seq<u8>)
    ensures
        feed(Seq::empty(), bytes).1.len() <= BUF_SIZE,
        forall|i: int|
            0 <= i < feed(Seq::empty(), bytes).0.len() ==> 0 < (#[trigger] feed(
                Seq::empty(),
                bytes,
            ).0[i]).len() <= BUF_SIZE,
    decreases bytes.len(),
{
    if bytes.len() > 0 {
        lemma_feed_sizes(bytes.drop_last());
    }
}

/// Every chunk has at least one byte, and at most 32.
pub proof fn law_chunk_sizes(bytes: Seq<u8>, i: int)
    requires
        0 <= i < printed(bytes).len(),
    ensures
        0 < printed(bytes)[i].len() <= BUF_SIZE,
{
    lemma_feed_sizes(bytes);
}

proof fn lemma_feed_split(pending: Seq<u8>, a: Seq<u8>, b: Seq<u8>)
    ensures
        ({
            let (chunks, rest) = feed(pending, a);
            let (more, end) = feed(rest, b);
            feed(pending, a + b) == (chunks + more, end)
        }),
    decreases b.len(),
{
    let (chunks, rest) = feed(pending, a);
    if b.len() == 0 {
        assert(a + b =~= a);
        assert(chunks + Seq::<Seq<u8>>::empty() =~= chunks);
    } else {
        lemma_feed_split(pending, a, b.drop_last());
        assert((a + b).drop_last() =~= a + b.drop_last());
        let (more, end) = feed(rest, b.drop_last());
        assert((chunks + more).push(end) =~= chunks + more.push(end));
    }
}

/// A character of up to four bytes goes into one chunk.
proof fn lemma_feed_char(pending: Seq<u8>, c: Seq<u8>)
    requires
        pending.len() <= BUF_SIZE,
        1 <= c.len() <= 4,
        utf8_len(c[0]) == c.len(),
        forall|i: int| 1 <= i < c.len() ==> utf8_len(#[trigger] c[i]) == 1,
    ensures
        feed(pending, c) == (if pending.len() + c.len() > BUF_SIZE {
            (seq![pending], c)
        } else {
            (Seq::<Seq<u8>>::empty(), pending + c)
        }),
{
    let start = if pending.len() + c.len() > BUF_SIZE {
        (seq![pending], Seq::<u8>::empty())
    } else {
        (Seq::<Seq<u8>>::empty(), pending)
    };
    assert(c.take(0) =~= Seq::<u8>::empty());
    assert(c.take(1).drop_last() =~= c.take(0));
    assert(feed(pending, c.take(0)) == (Seq::<Seq<u8>>::empty(), pending));
    assert(Seq::<Seq<u8>>::empty().push(pending) =~= seq![pending]);
    assert(feed(pending, c.take(1)).0 == start.0);
    assert(feed(pending, c.take(1)).1 =~= start.1 + c.take(1));
    if c.len() > 1 {
        assert(c.take(2).drop_last() =~= c.take(1));
        assert(utf8_len(c[1]) == 1);
        assert(feed(pending, c.take(2)).1 =~= start.1 + c.take(2));
    }
    if c.len() > 2 {
        assert(c.take(3).drop_last() =~= c.take(2));
        assert(utf8_len(c[2]) == 1);
        assert(feed(pending, c.take(3)).1 =~= start.1 + c.take(3));
    }
    if c.len() > 3 {
        assert(c.take(4).drop_last() =~= c.take(3));
        assert(utf8_len(c[3]) == 1);
        assert(feed(pending, c.take(4)).1 =~= start.1 + c.take(4));
    }
    assert(c.take(c.len() as int) =~= c);
    assert(start.1 + c =~= if pending.len() + c.len() > BUF_SIZE {
        c
    } else {
        pending + c
    });
}

proof fn lemma_feed_valid(pending: Seq<u8>, bytes: Seq<u8>)
    requires
        pending.len() <= BUF_SIZE,
        vstd::utf8::valid_utf8(pending),
        vstd::utf8::valid_utf8(bytes),
    ensures
        vstd::utf8::valid_utf8(feed(pending, bytes).1),
        forall|i: int|
            0 <= i < feed(pending, bytes).0.len() ==> vstd::utf8::valid_utf8(
                #[trigger] feed(pending, bytes).0[i],
            ),
    decreases bytes.len(),
{
    if bytes.len() > 0 {
        let c = vstd::utf8::take_first_scalar(bytes);
        let others = vstd::utf8::pop_first_scalar(bytes);
        lemma_first_char(bytes);
        lemma_feed_char(pending, c);
        let (chunks, rest) = feed(pending, c);
        vstd::utf8::valid_utf8_concat(pending, c);
        lemma_feed_valid(rest, others);
        lemma_feed_split(pending, c, others);
        assert(bytes =~= c + others);
    }
}

/// The first character of valid text.
proof fn lemma_first_char(bytes: Seq<u8>)
    requires
        bytes.len() > 0,
        vstd::utf8::valid_utf8(bytes),
    ensures
        ({
            let c = vstd::utf8::take_first_scalar(bytes);
            let others = vstd::utf8::pop_first_scalar(bytes);
            &&& 1 <= c.len() <= 4
            &&& utf8_len(c[0]) == c.len()
            &&& forall|i: int| 1 <= i < c.len() ==> utf8_len(#[trigger] c[i]) == 1
            &&& c + others == bytes
            &&& others.len() < bytes.len()
            &&& vstd::utf8::valid_utf8(c)
            &&& vstd::utf8::valid_utf8(others)
        }),
{
    let c = vstd::utf8::take_first_scalar(bytes);
    let others = vstd::utf8::pop_first_scalar(bytes);
    assert(c + others =~= bytes);
    assert(vstd::utf8::pop_first_scalar(c) =~= Seq::<u8>::empty());
    assert(vstd::utf8::valid_utf8(Seq::<u8>::empty()));
}

/// No chunk of a valid text ends inside a character: every chunk is valid text.
pub proof fn law_chunks_hold_whole_chars(bytes: Seq<u8>, i: int)
    requires
        vstd::utf8::valid_utf8(bytes),
        0 <= i < printed(bytes).len(),
    ensures
        vstd::utf8::valid_utf8(printed(bytes)[i]),
{
    lemma_feed_valid(Seq::empty(), bytes);
}

/// The bytes that a call puts on the console.
pub open spec fn chunk(call: Call) -> Seq<u8> {
    match call {
        Call::StrOut { bytes } => bytes@,
        _ => Seq::empty(),
    }
}

/// What calls put on the console.
pub open spec fn console(calls: Seq<Call>) -> Seq<u8> {
    calls.map_values(|call: Call| chunk(call)).flatten()
}

/// Whether calls print a text in as few chunks as there can be: every chunk has up to 32 bytes,
/// which are whole characters, and no room for the first character of the next chunk.
pub open spec fn prints_whole_chunks(calls: Seq<Call>) -> bool {
    &&& forall|i: int|
        0 <= i < calls.len() ==> (#[trigger] calls[i]) is StrOut && 0 < chunk(calls[i]).len() <= 32
            && vstd::utf8::valid_utf8(chunk(calls[i]))
    &&& forall|i: int|
        1 <= i < calls.len() ==> chunk(calls[i - 1]).len() + vstd::utf8::length_of_first_scalar(
            chunk(#[trigger] calls[i]),
        ) > 32
}

proof fn lemma_concat_is_flatten(chunks: Seq<Seq<u8>>)
    ensures
        concat(chunks) == chunks.flatten(),
    decreases chunks.len(),
{
    chunks.lemma_flatten_and_flatten_alt_are_equivalent();
    if chunks.len() > 0 {
        lemma_concat_is_flatten(chunks.drop_last());
        chunks.drop_last().lemma_flatten_and_flatten_alt_are_equivalent();
    }
}

proof fn lemma_feed_fills(bytes: Seq<u8>)
    ensures
        ({
            let (chunks, rest) = feed(Seq::empty(), bytes);
            &&& rest.len() == 0 ==> chunks.len() == 0
            &&& chunks.len() > 0 ==> chunks.last().len() + utf8_len(rest[0]) > 32
            &&& forall|i: int|
                1 <= i < chunks.len() ==> chunks[i - 1].len() + utf8_len(
                    (#[trigger] chunks[i])[0],
                ) > 32
        }),
    decreases bytes.len(),
{
    if bytes.len() > 0 {
        lemma_feed_fills(bytes.drop_last());
    }
}

proof fn lemma_printed(calls: Seq<Call>, bytes: Seq<u8>)
    requires
        prints(calls, printed(bytes)),
        vstd::utf8::valid_utf8(bytes),
    ensures
        console(calls) == bytes,
        prints_whole_chunks(calls),
{
    let chunks = printed(bytes);
    assert forall|i: int| 0 <= i < calls.len() implies chunk(#[trigger] calls[i]) == chunks[i]
        && calls[i] is StrOut by {}
    assert(calls.map_values(|call: Call| chunk(call)) =~= chunks);
    law_output_complete(bytes);
    lemma_concat_is_flatten(chunks);
    lemma_feed_fills(bytes);
    assert forall|i: int| 0 <= i < calls.len() implies (#[trigger] calls[i]) is StrOut && 0
        < chunk(calls[i]).len() <= 32 && vstd::utf8::valid_utf8(chunk(calls[i])) by {
        law_chunk_sizes(bytes, i);
        law_chunks_hold_whole_chars(bytes, i);
    }
    assert forall|i: int| 1 <= i < calls.len() implies chunk(calls[i - 1]).len()
        + vstd::utf8::length_of_first_scalar(chunk(#[trigger] calls[i])) > 32 by {
        assert(chunk(calls[i]) == chunks[i]);
        assert(chunk(calls[i - 1]) == chunks[i - 1]);
        law_chunk_sizes(bytes, i);
        law_chunks_hold_whole_chars(bytes, i);
        lemma_first_char(chunks[i]);
    }
}

/// What is printed is the text: all of its bytes, in their order, in chunks that hold whole
/// characters and are as full as they can be.
pub proof fn law_printk_prints_text(text: &str, calls: Vec<Call>)
    requires
        call_ensures(printk, (text,), calls),
    ensures
        console(calls@) == vstd::utf8::encode_utf8(text@),
        prints_whole_chunks(calls@),
{
    vstd::utf8::encode_utf8_valid_utf8(text@);
    lemma_printed(calls@, text.spec_bytes());
}

/// A line is printed as its text and one newline.
pub proof fn law_printkln_prints_line(text: &str, calls: Vec<Call>)
    requires
        call_ensures(printkln, (text,), calls),
    ensures
        console(calls@) == vstd::utf8::encode_utf8(text@).push(10),
        prints_whole_chunks(calls@),
{
    lemma_line_is_valid(text@);
    lemma_printed(calls@, text.spec_bytes().push(10));
}

proof fn lemma_line_is_valid(text: Seq<char>)
    ensures
        vstd::utf8::valid_utf8(vstd::utf8::encode_utf8(text).push(10)),
{
    vstd::utf8::encode_utf8_valid_utf8(text);
    let newline = seq!['\n'];
    vstd::utf8::encode_utf8_valid_utf8(newline);
    assert(vstd::utf8::is_ascii_chars(newline));
    vstd::utf8::is_ascii_chars_encode_utf8(newline);
    assert(vstd::utf8::encode_utf8(newline) =~= seq![10u8]);
    vstd::utf8::valid_utf8_concat(vstd::utf8::encode_utf8(text), seq![10u8]);
    assert(vstd::utf8::encode_utf8(text).push(10) =~= vstd::utf8::encode_utf8(text) + seq![10u8]);
}

/// The calls of a line print it, whatever the line.
pub proof fn lemma_line_printed(calls: Seq<Call>, text: Seq<char>)
    requires
        prints(calls, printed(vstd::utf8::encode_utf8(text).push(10))),
    ensures
        console(calls) == vstd::utf8::encode_utf8(text).push(10),
        prints_whole_chunks(calls),
{
    lemma_line_is_valid(text);
    lemma_printed(calls, vstd::utf8::encode_utf8(text).push(10));
}

/// The length that the first byte of a text tells is that of its first character, and any other
/// byte stands for itself.
pub proof fn law_first_byte_tells_length(bytes: Seq<u8>, byte: u8, first: usize, any: usize)
    requires
        bytes.len() > 0,
        vstd::utf8::valid_utf8(bytes),
        call_ensures(utf8_byte_length, (bytes[0],), first),
        call_ensures(utf8_byte_length, (byte,), any),
    ensures
        first == vstd::utf8::length_of_first_scalar(bytes),
        1 <= any <= 4,
        byte < 0xc0 || byte > 0xf7 ==> any == 1,
{
    lemma_first_char(bytes);
}

/// A byte that is added is neither lost nor moved: what was printed before it and what waits is
/// what waited, and the byte.  Only where there is no room for its character is anything printed.
pub proof fn law_added_byte_is_kept(context: &mut Context, byte: u8, calls: Vec<Call>)
    requires
        old(context).count <= 32,
        call_ensures(Context::add_byte, (context, byte), calls),
    ensures
        final(context).count <= 32,
        console(calls@) + final(context).buf@.take(final(context).count as int) == old(
            context,
        ).buf@.take(old(context).count as int).push(byte),
        calls@.len() == 1 || calls@.len() == 0,
        calls@.len() == 1 <==> old(context).count > if byte < 0xc0 || byte > 0xf7 {
            31int
        } else if byte < 0xe0 {
            30
        } else if byte < 0xf0 {
            29
        } else {
            28
        },
        calls@.len() == 1 ==> final(context).count == 1,
{
    let waited = old(context).pending();
    reveal_with_fuel(Seq::flatten, 2);
    assert(waited.len() == old(context).count);
    assert(final(context).pending().len() == final(context).count);
    if ends_chunk(waited, byte) {
        assert(calls@[0] is StrOut);
        assert(calls@.map_values(|call: Call| chunk(call)) =~= seq![waited]);
        seq![waited].lemma_flatten_one_element();
        assert(console(calls@) == waited);
        assert(waited + seq![byte] =~= waited.push(byte));
    } else {
        assert(console(calls@) =~= Seq::<u8>::empty());
        assert(Seq::<u8>::empty() + waited.push(byte) =~= waited.push(byte));
    }
}

/// A flush prints what waits, in one call, and then nothing waits.
pub proof fn law_flush_prints_rest(context: &mut Context, calls: Vec<Call>)
    requires
        old(context).count <= 32,
        call_ensures(Context::flush, (context,), calls),
    ensures
        final(context).count == 0,
        calls@.len() == if old(context).count == 0 {
            0nat
        } else {
            1
        },
        console(calls@) == old(context).buf@.take(old(context).count as int),
{
    let waited = old(context).pending();
    assert(waited.len() == old(context).count);
    assert(final(context).pending().len() == final(context).count);
    if waited.len() > 0 {
        assert(calls@[0] is StrOut);
        assert(calls@.map_values(|call: Call| chunk(call)) =~= seq![waited]);
        seq![waited].lemma_flatten_one_element();
    } else {
        assert(console(calls@) =~= Seq::<u8>::empty());
        assert(waited =~= Seq::<u8>::empty());
    }
}

} // verus!
