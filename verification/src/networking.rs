//! The frame codec: one message as one datagram, or as a header datagram
//! that announces a number of parts and then the parts.

use vstd::prelude::*;

verus! {

/// The size of a part of a split message, in bytes.
pub const PACK_SIZE: usize = 8024;

/// The size of the buffer that a datagram is received into, in bytes.
pub const BUFFER_SIZE: usize = 524288;

/// `d` without the zero bytes at its end.
pub open spec fn stripped(d: Seq<u8>) -> Seq<u8>
    decreases d.len(),
{
    if d.len() > 0 && d.last() == 0 {
        stripped(d.drop_last())
    } else {
        d
    }
}

/// `d` followed by `k` zero bytes, as it lies in a receive buffer.
pub open spec fn padded(d: Seq<u8>, k: nat) -> Seq<u8> {
    d + Seq::new(k, |i: int| 0u8)
}

/// An ASCII digit.
pub open spec fn is_digit(b: u8) -> bool {
    48 <= b <= 57
}

/// Every byte is an ASCII digit.
pub open spec fn all_digits(s: Seq<u8>) -> bool {
    forall|i: int| 0 <= i < s.len() ==> is_digit(#[trigger] s[i])
}

/// The number that a sequence of ASCII digits writes in base ten.
pub open spec fn decimal_value(s: Seq<u8>) -> nat
    decreases s.len(),
{
    if s.len() == 0 {
        0
    } else {
        decimal_value(s.drop_last()) * 10 + (s.last() - 48) as nat
    }
}

/// `n` written in base ten, in ASCII digits, without leading zeros.
pub open spec fn decimal(n: nat) -> Seq<u8>
    decreases n,
{
    if n < 10 {
        seq![(48 + n) as u8]
    } else {
        decimal(n / 10).push((48 + n % 10) as u8)
    }
}

/// The four bytes `PACK` that a header datagram begins with.
pub open spec fn magic() -> Seq<u8> {
    seq![80u8, 65u8, 67u8, 75u8]
}

/// The datagram begins with `PACK`.
pub open spec fn is_header(d: Seq<u8>) -> bool {
    d.len() >= 4 && d[0] == 80 && d[1] == 65 && d[2] == 67 && d[3] == 75
}

/// The header datagram that announces `n` parts.
pub open spec fn header_for(n: nat) -> Seq<u8> {
    magic() + decimal(n)
}

/// The number of parts that a header datagram announces: what follows
/// `PACK`, up to the zero bytes at the end, read as a decimal number.
pub open spec fn announced(d: Seq<u8>) -> Option<nat> {
    let digits = stripped(d).skip(4);
    if is_header(d) && digits.len() > 0 && all_digits(digits) {
        Some(decimal_value(digits))
    } else {
        None
    }
}

/// The number of parts that a message of `len` bytes is sent in, if it is split.
pub open spec fn part_count(len: nat) -> nat {
    len / (PACK_SIZE as nat)
}

/// A message is split when its size holds the part size more than once.
pub open spec fn is_split(m: Seq<u8>) -> bool {
    part_count(m.len()) > 1
}

/// Part `i` of a split message: `PACK_SIZE` bytes from `i * PACK_SIZE` on,
/// the last part reaching to the end of the message.
pub open spec fn part(m: Seq<u8>, i: int) -> Seq<u8> {
    let start = i * PACK_SIZE;
    let end = if i + 1 == part_count(m.len()) {
        m.len() as int
    } else {
        start + PACK_SIZE
    };
    m.subrange(start, end)
}

/// The datagrams that carry the message `m`, in the order they are sent.
pub open spec fn datagrams(m: Seq<u8>) -> Seq<Seq<u8>> {
    if is_split(m) {
        seq![header_for(part_count(m.len()))] + Seq::new(
            part_count(m.len()),
            |i: int| part(m, i),
        )
    } else {
        seq![m]
    }
}

/// Where the receiver stands after a datagram.
pub enum Progress {
    /// The message is complete.
    Message(Seq<u8>),
    /// `remaining` more parts are to come after the bytes in `sum`.
    Partial { remaining: nat, sum: Seq<u8> },
    /// A header whose count cannot be read.
    Malformed,
}

/// What the first datagram of a message means to the receiver.
pub open spec fn begin(d: Seq<u8>) -> Progress {
    if is_header(d) {
        match announced(d) {
            Some(n) => if n > usize::MAX {
                Progress::Malformed
            } else if n == 0 {
                Progress::Message(Seq::empty())
            } else {
                Progress::Partial { remaining: n, sum: Seq::empty() }
            },
            None => Progress::Malformed,
        }
    } else {
        Progress::Message(stripped(d))
    }
}

/// What one more part means to a receiver that waits for `remaining` parts.
pub open spec fn feed(remaining: nat, sum: Seq<u8>, d: Seq<u8>) -> Progress {
    if remaining <= 1 {
        Progress::Message(sum + stripped(d))
    } else {
        Progress::Partial { remaining: (remaining - 1) as nat, sum: sum + stripped(d) }
    }
}

/// The message that a receiver waiting for `remaining` parts has after
/// exactly the datagrams `frames`, if they complete it.
pub open spec fn resumed(remaining: nat, sum: Seq<u8>, frames: Seq<Seq<u8>>) -> Option<Seq<u8>>
    decreases frames.len(),
{
    if frames.len() == 0 {
        None
    } else {
        match feed(remaining, sum, frames[0]) {
            Progress::Message(m) => if frames.len() == 1 {
                Some(m)
            } else {
                None
            },
            Progress::Partial { remaining, sum } => resumed(remaining, sum, frames.skip(1)),
            Progress::Malformed => None,
        }
    }
}

/// The message that exactly the datagrams `frames` carry, if they carry one.
pub open spec fn reassembled(frames: Seq<Seq<u8>>) -> Option<Seq<u8>> {
    if frames.len() == 0 {
        None
    } else {
        match begin(frames[0]) {
            Progress::Message(m) => if frames.len() == 1 {
                Some(m)
            } else {
                None
            },
            Progress::Partial { remaining, sum } => resumed(remaining, sum, frames.skip(1)),
            Progress::Malformed => None,
        }
    }
}

/// A message that the zero stripping of the receiver leaves whole: sent in
/// one datagram it neither ends in a zero byte nor begins like a header, and
/// sent in parts none of its parts ends in a zero byte.
pub open spec fn survives_framing(m: Seq<u8>) -> bool {
    if is_split(m) {
        forall|i: int| 0 <= i < part_count(m.len()) ==> (#[trigger] part(m, i)).last() != 0
    } else {
        !is_header(m) && (m.len() > 0 ==> m.last() != 0)
    }
}

/// The byte sequences that a list of byte vectors holds.
pub open spec fn payloads(v: Seq<Vec<u8>>) -> Seq<Seq<u8>> {
    Seq::new(v.len(), |i: int| v[i]@)
}

/// What stripping leaves is the start of the datagram, all that it drops is
/// zero, and what it leaves does not end in zero.
pub proof fn lemma_stripped(d: Seq<u8>)
    ensures
        stripped(d).len() <= d.len(),
        stripped(d) == d.take(stripped(d).len() as int),
        forall|i: int| stripped(d).len() <= i < d.len() ==> d[i] == 0,
        stripped(d).len() > 0 ==> stripped(d).last() != 0,
    decreases d.len(),
{
    if d.len() > 0 && d.last() == 0 {
        lemma_stripped(d.drop_last());
        let s = stripped(d);
        assert(s == d.take(s.len() as int)) by {
            assert(d.drop_last().take(s.len() as int) =~= d.take(s.len() as int));
        }
        assert forall|i: int| s.len() <= i < d.len() implies d[i] == 0 by {
            if i < d.len() - 1 {
                assert(d.drop_last()[i] == 0);
            }
        }
    } else {
        assert(d.take(d.len() as int) =~= d);
    }
}

/// A datagram that does not end in zero is left as it is.
pub proof fn lemma_stripped_keeps(d: Seq<u8>)
    requires
        d.len() == 0 || d.last() != 0,
    ensures
        stripped(d) == d,
{
}

/// Stripping undoes the zero padding of the receive buffer.
pub proof fn lemma_padding_is_stripped(d: Seq<u8>, k: nat)
    ensures
        stripped(padded(d, k)) == stripped(d),
    decreases k,
{
    if k == 0 {
        assert(padded(d, 0) =~= d);
    } else {
        assert(padded(d, k).drop_last() =~= padded(d, (k - 1) as nat));
        lemma_padding_is_stripped(d, (k - 1) as nat);
    }
}

/// The decimal form of a number is made of digits, and reads back as the number.
pub proof fn lemma_decimal_round_trip(n: nat)
    ensures
        decimal(n).len() > 0,
        all_digits(decimal(n)),
        decimal_value(decimal(n)) == n,
    decreases n,
{
    if n < 10 {
        let s = decimal(n);
        assert(s.drop_last() =~= Seq::<u8>::empty());
        assert(decimal_value(s.drop_last()) == 0);
    } else {
        lemma_decimal_round_trip(n / 10);
        let s = decimal(n);
        assert(s.drop_last() =~= decimal(n / 10));
    }
}

/// The header for `n` parts announces `n` parts.
pub proof fn lemma_header_round_trip(n: nat)
    ensures
        is_header(header_for(n)),
        announced(header_for(n)) == Some(n),
{
    lemma_decimal_round_trip(n);
    let h = header_for(n);
    assert(h.last() == decimal(n).last());
    assert(is_digit(decimal(n)[decimal(n).len() - 1]));
    assert(stripped(h) == h);
    assert(h.skip(4) =~= decimal(n));
}

/// Every part of a split message but the last holds `PACK_SIZE` bytes; the
/// last holds at least as many and fewer than twice as many, so that every
/// part fits the receive buffer.
pub proof fn lemma_part_sizes(m: Seq<u8>, i: int)
    requires
        is_split(m),
        0 <= i < part_count(m.len()),
    ensures
        i + 1 < part_count(m.len()) ==> part(m, i).len() == PACK_SIZE,
        i + 1 == part_count(m.len()) ==> PACK_SIZE <= part(m, i).len() < 2 * PACK_SIZE,
        part(m, i).len() <= BUFFER_SIZE,
{
}

/// The parts of a split message, put together in order, are the message.
proof fn lemma_parts_complete(m: Seq<u8>, i: nat)
    requires
        is_split(m),
        survives_framing(m),
        i < part_count(m.len()),
    ensures
        resumed(
            (part_count(m.len()) - i) as nat,
            m.take(i * PACK_SIZE),
            Seq::new(part_count(m.len()), |j: int| part(m, j)).skip(i as int),
        ) == Some(m),
    decreases part_count(m.len()) - i,
{
    let n = part_count(m.len());
    let parts = Seq::new(n, |j: int| part(m, j));
    let rest = parts.skip(i as int);
    assert(rest[0] == part(m, i as int));
    assert(part(m, i as int).len() > 0);
    lemma_stripped_keeps(part(m, i as int));
    if i + 1 == n {
        assert(m.take(i * PACK_SIZE) + part(m, i as int) =~= m);
        assert(rest.len() == 1);
    } else {
        assert(m.take(i * PACK_SIZE) + part(m, i as int) =~= m.take((i + 1) * PACK_SIZE));
        assert(rest.skip(1) =~= parts.skip(i as int + 1));
        lemma_parts_complete(m, i + 1);
    }
}

/// Framing round trip: the datagrams of a message that survives framing
/// reassemble to that message.
pub proof fn lemma_framing_round_trip(m: Seq<u8>)
    requires
        survives_framing(m),
        m.len() <= usize::MAX,
    ensures
        reassembled(datagrams(m)) == Some(m),
{
    if is_split(m) {
        let n = part_count(m.len());
        let parts = Seq::new(n, |j: int| part(m, j));
        lemma_header_round_trip(n);
        assert(datagrams(m)[0] == header_for(n));
        assert(datagrams(m).skip(1) =~= parts);
        assert(parts.skip(0) =~= parts);
        assert(m.take(0) =~= Seq::<u8>::empty());
        assert(n <= m.len());
        lemma_parts_complete(m, 0);
        assert(begin(datagrams(m)[0]) == Progress::Partial { remaining: n, sum: Seq::empty() });
    } else {
        lemma_stripped_keeps(m);
    }
}

/// The zero bytes that fill up the receive buffer behind a datagram change
/// nothing for the receiver.
pub proof fn lemma_padding_is_harmless(d: Seq<u8>, k: nat, remaining: nat, sum: Seq<u8>)
    ensures
        begin(padded(d, k)) == begin(d),
        feed(remaining, sum, padded(d, k)) == feed(remaining, sum, d),
{
    lemma_padding_is_stripped(d, k);
    assert(is_header(padded(d, k)) == is_header(d));
}

/// The codec of the datagram transport. It holds no state of its own.
pub struct Connection {}

/// A split message of which parts are still to come.
#[derive(Debug, PartialEq, Eq)]
pub struct Reassembly {
    remaining: usize,
    sum: Vec<u8>,
}

impl Reassembly {
    /// The number of parts that are still to come.
    pub closed spec fn remaining(&self) -> nat {
        self.remaining as nat
    }

    /// The bytes received so far.
    pub closed spec fn sum(&self) -> Seq<u8> {
        self.sum@
    }
}

/// What the receiver has after a datagram.
#[derive(Debug, PartialEq, Eq)]
pub enum Received {
    /// The complete message, without the zero bytes at the end of its datagrams.
    Message(Vec<u8>),
    /// More parts are to come.
    Partial(Reassembly),
    /// The datagram is a header whose count cannot be read.
    Malformed,
}

impl View for Received {
    type V = Progress;

    open spec fn view(&self) -> Progress {
        match self {
            Received::Message(m) => Progress::Message(m@),
            Received::Partial(state) => Progress::Partial {
                remaining: state.remaining(),
                sum: state.sum(),
            },
            Received::Malformed => Progress::Malformed,
        }
    }
}

fn decimal_bytes(n: usize) -> (out: Vec<u8>)
    ensures
        out@ == decimal(n as nat),
    decreases n,
{
    if n < 10 {
        let mut out: Vec<u8> = Vec::new();
        out.push((48 + n) as u8);
        assert(out@ =~= decimal(n as nat));
        out
    } else {
        let mut out = decimal_bytes(n / 10);
        out.push((48 + n % 10) as u8);
        out
    }
}

/// The value of a longer run of digits is no less than that of its start.
proof fn lemma_decimal_value_grows(s: Seq<u8>, k: int)
    requires
        all_digits(s),
        0 <= k <= s.len(),
    ensures
        decimal_value(s.take(k)) <= decimal_value(s),
    decreases s.len() - k,
{
    if k == s.len() {
        assert(s.take(k) =~= s);
    } else {
        lemma_decimal_value_grows(s.drop_last(), k);
        assert(s.drop_last().take(k) =~= s.take(k));
        assert(is_digit(s[s.len() - 1]));
    }
}

/// Reads the digits of `d` from position 4 up to `end`.
fn read_count(d: &Vec<u8>, end: usize) -> (r: Option<usize>)
    requires
        4 <= end <= d.len(),
    ensures
        ({
            let digits = d@.subrange(4, end as int);
            match r {
                Some(n) => digits.len() > 0 && all_digits(digits) && decimal_value(digits) == n,
                None => !(digits.len() > 0 && all_digits(digits) && decimal_value(digits)
                    <= usize::MAX),
            }
        }),
{
    let ghost digits = d@.subrange(4, end as int);
    if end == 4 {
        return None;
    }
    let mut n: usize = 0;
    let mut i: usize = 4;
    while i < end
        invariant
            4 <= i <= end <= d.len(),
            digits == d@.subrange(4, end as int),
            all_digits(digits.take(i - 4)),
            decimal_value(digits.take(i - 4)) == n,
        decreases end - i,
    {
        let b = d[i];
        assert(digits[i - 4] == b);
        if b < 48 || b > 57 {
            return None;
        }
        let ghost seen = digits.take(i - 4 + 1);
        assert(seen.drop_last() =~= digits.take(i - 4));
        assert(all_digits(seen));
        assert(decimal_value(seen) == n * 10 + (b - 48));
        let digit = (b - 48) as usize;
        if n > (usize::MAX - digit) / 10 {
            proof {
                if all_digits(digits) {
                    lemma_decimal_value_grows(digits, i - 4 + 1);
                }
            }
            return None;
        }
        n = n * 10 + digit;
        i = i + 1;
    }
    assert(digits.take(end - 4) =~= digits);
    Some(n)
}

impl Connection {
    /// A codec.
    pub fn new() -> Connection {
        Connection {  }
    }

    /// Removes the zero bytes at the end of a datagram.
    pub fn remove_last_zeros(d: Vec<u8>) -> (r: Vec<u8>)
        ensures
            r@ == stripped(d@),
    {
        let mut d = d;
        let ghost whole = d@;
        let mut n: usize = d.len();
        assert(whole.take(n as int) == whole);
        while n > 0 && d[n - 1] == 0
            invariant
                n <= d.len(),
                d@ == whole,
                stripped(whole) == stripped(whole.take(n as int)),
            decreases n,
        {
            assert(whole.take(n as int).drop_last() == whole.take(n as int - 1));
            n = n - 1;
        }
        d.truncate(n);
        assert(d@ == whole.take(n as int));
        d
    }

    /// The datagrams to send for a message, in order: the message itself, or
    /// a header and the parts.
    pub fn send(&self, resp: Vec<u8>) -> (out: Vec<Vec<u8>>)
        ensures
            payloads(out@) == datagrams(resp@),
    {
        let count: usize = resp.len() / PACK_SIZE;
        let mut out: Vec<Vec<u8>> = Vec::new();
        if count > 1 {
            let mut header: Vec<u8> = Vec::new();
            header.push(80);
            header.push(65);
            header.push(67);
            header.push(75);
            let mut digits = decimal_bytes(count);
            header.append(&mut digits);
            assert(header@ =~= header_for(count as nat));
            out.push(header);
            let mut i: usize = 0;
            while i < count
                invariant
                    i <= count,
                    count == part_count(resp@.len()),
                    count * PACK_SIZE <= resp.len(),
                    count > 1,
                    out@.len() == i + 1,
                    out@[0]@ == header_for(count as nat),
                    forall|j: int| 0 <= j < i ==> (#[trigger] out@[j + 1])@ == part(resp@, j),
                decreases count - i,
            {
                let start: usize = i * PACK_SIZE;
                let end: usize = if i + 1 == count {
                    resp.len()
                } else {
                    start + PACK_SIZE
                };
                let mut piece: Vec<u8> = Vec::new();
                let mut k: usize = start;
                while k < end
                    invariant
                        start <= k <= end <= resp.len(),
                        piece@ == resp@.subrange(start as int, k as int),
                    decreases end - k,
                {
                    piece.push(resp[k]);
                    k = k + 1;
                    assert(resp@.subrange(start as int, k as int) =~= resp@.subrange(
                        start as int,
                        k as int - 1,
                    ).push(resp@[k as int - 1]));
                }
                out.push(piece);
                i = i + 1;
            }
            assert(payloads(out@) =~= datagrams(resp@)) by {
                assert forall|j: int| 0 <= j < payloads(out@).len() implies payloads(out@)[j]
                    == datagrams(resp@)[j] by {
                    if j > 0 {
                        assert(out@[(j - 1) + 1]@ == part(resp@, j - 1));
                    }
                }
            }
        } else {
            out.push(resp);
            assert(payloads(out@) =~= datagrams(resp@));
        }
        out
    }

    /// Takes the first datagram of a message.
    pub fn recv(&self, datagram: Vec<u8>) -> (r: Received)
        ensures
            r@ == begin(datagram@),
    {
        let leads = datagram.len() >= 4 && datagram[0] == 80 && datagram[1] == 65 && datagram[2]
            == 67 && datagram[3] == 75;
        let ghost raw = datagram@;
        let body = Connection::remove_last_zeros(datagram);
        if leads {
            proof {
                lemma_stripped(raw);
                assert(body@.len() >= 4) by {
                    if body@.len() < 4 {
                        assert(raw[3] == 0);
                    }
                }
                assert(body@.subrange(4, body@.len() as int) =~= body@.skip(4));
            }
            match read_count(&body, body.len()) {
                Some(n) => {
                    if n == 0 {
                        Received::Message(Vec::new())
                    } else {
                        Received::Partial(Reassembly { remaining: n, sum: Vec::new() })
                    }
                },
                None => Received::Malformed,
            }
        } else {
            Received::Message(body)
        }
    }

    /// Takes one more part of a split message.
    pub fn recv_part(&self, state: Reassembly, datagram: Vec<u8>) -> (r: Received)
        ensures
            r@ == feed(state.remaining(), state.sum(), datagram@),
    {
        let mut sum = state.sum;
        let mut body = Connection::remove_last_zeros(datagram);
        sum.append(&mut body);
        if state.remaining <= 1 {
            Received::Message(sum)
        } else {
            Received::Partial(Reassembly { remaining: state.remaining - 1, sum })
        }
    }
}

} // verus!
