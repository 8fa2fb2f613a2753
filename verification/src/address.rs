//! The address of a mount on the command line, `HOST[:PORT]/VOLUME`, taken
//! apart; and the choice among the addresses that a host name resolves to.

use crate::path::{from_chars, to_chars};
use crate::responses::texts;
use vstd::prelude::*;

verus! {

/// The port of a server where none is given.
pub const DEFAULT_PORT: u16 = 30;

/// The address that stands for "not resolved".
pub open spec fn loopback() -> (u8, u8, u8, u8) {
    (127u8, 0u8, 0u8, 1u8)
}

/// `i` is the place of the first `sep` in `s`, or the length of `s` where
/// there is none.
pub open spec fn is_cut(s: Seq<char>, sep: char, i: int) -> bool {
    &&& 0 <= i <= s.len()
    &&& i < s.len() ==> s[i] == sep
    &&& forall|j: int| 0 <= j < i ==> s[j] != sep
}

/// The place of the first `sep` in `s`, or the length of `s`.
pub open spec fn cut(s: Seq<char>, sep: char) -> int {
    choose|i: int| is_cut(s, sep, i)
}

/// What stands before the first `sep`.
pub open spec fn before(s: Seq<char>, sep: char) -> Seq<char> {
    s.take(cut(s, sep))
}

/// What stands after the first `sep`, if there is one.
pub open spec fn after(s: Seq<char>, sep: char) -> Option<Seq<char>> {
    if cut(s, sep) < s.len() {
        Some(s.skip(cut(s, sep) + 1))
    } else {
        None
    }
}

/// The second piece of `s` when it is split at every `sep`, or the empty
/// text where there is only one piece.
pub open spec fn second(s: Seq<char>, sep: char) -> Option<Seq<char>> {
    match after(s, sep) {
        Some(rest) => Some(before(rest, sep)),
        None => None,
    }
}

/// The server part and the volume of a mount address: what stands before
/// the first `/`, and what stands between the first and the second.
pub open spec fn target_of(host: Seq<char>) -> (Seq<char>, Seq<char>) {
    (
        before(host, '/'),
        match second(host, '/') {
            Some(v) => v,
            None => Seq::empty(),
        },
    )
}

/// The host name and the port text of a server part: what stands before
/// the first `:`, and what stands between the first and the second.
pub open spec fn host_and_port(server: Seq<char>) -> (Seq<char>, Option<Seq<char>>) {
    (before(server, ':'), second(server, ':'))
}

/// The last IPv4 address among the resolved ones; `None` stands for an
/// address of another family.
pub open spec fn last_ipv4(found: Seq<Option<(u8, u8, u8, u8)>>) -> Option<(u8, u8, u8, u8)>
    decreases found.len(),
{
    if found.len() == 0 {
        None
    } else {
        match found.last() {
            Some(ip) => Some(ip),
            None => last_ipv4(found.drop_last()),
        }
    }
}

/// The address that a host name is taken to have: the last IPv4 address it
/// resolves to, unless that is the loopback address.
pub open spec fn chosen(found: Seq<Option<(u8, u8, u8, u8)>>) -> Option<(u8, u8, u8, u8)> {
    match last_ipv4(found) {
        Some(ip) => if ip == loopback() {
            None
        } else {
            Some(ip)
        },
        None => None,
    }
}

/// The arguments that the options of a mount are handed on as: `-o` before each.
pub open spec fn flagged(options: Seq<Seq<char>>) -> Seq<Seq<char>> {
    Seq::new(
        2 * options.len(),
        |i: int|
            if i % 2 == 0 {
                "-o"@
            } else {
                options[i / 2]
            },
    )
}

/// There is one place of the first separator.
pub proof fn lemma_cut_is_unique(s: Seq<char>, sep: char, i: int)
    requires
        is_cut(s, sep, i),
    ensures
        cut(s, sep) == i,
{
    let c = cut(s, sep);
    assert(is_cut(s, sep, c));
    if c < i {
        assert(s[c] != sep);
    }
    if i < c {
        assert(s[i] != sep);
    }
}

fn find(s: &Vec<char>, sep: char, from: usize) -> (i: usize)
    requires
        from <= s.len(),
    ensures
        from <= i <= s.len(),
        i - from == cut(s@.skip(from as int), sep),
{
    let mut i: usize = from;
    while i < s.len() && s[i] != sep
        invariant
            from <= i <= s.len(),
            forall|j: int| from <= j < i ==> s@[j] != sep,
        decreases s.len() - i,
    {
        i = i + 1;
    }
    proof {
        lemma_cut_is_unique(s@.skip(from as int), sep, i - from);
    }
    i
}

fn copy_range(s: &Vec<char>, from: usize, to: usize) -> (out: Vec<char>)
    requires
        from <= to <= s.len(),
    ensures
        out@ == s@.subrange(from as int, to as int),
{
    let mut out: Vec<char> = Vec::new();
    let mut i: usize = from;
    while i < to
        invariant
            from <= i <= to <= s.len(),
            out@ == s@.subrange(from as int, i as int),
        decreases to - i,
    {
        out.push(s[i]);
        i = i + 1;
        assert(s@.subrange(from as int, i as int) =~= s@.subrange(from as int, i as int - 1).push(
            s@[i as int - 1],
        ));
    }
    out
}

/// The first and the second piece of `s` split at `sep`.
fn two_pieces(s: &Vec<char>, sep: char) -> (r: (Vec<char>, Option<Vec<char>>))
    ensures
        r.0@ == before(s@, sep),
        match r.1 {
            Some(p) => second(s@, sep) == Some(p@),
            None => second(s@, sep) is None,
        },
{
    assert(s@.skip(0) =~= s@);
    let a = find(s, sep, 0);
    let first = copy_range(s, 0, a);
    assert(s@.subrange(0, a as int) =~= s@.take(a as int));
    if a < s.len() {
        let b = find(s, sep, a + 1);
        let piece = copy_range(s, a + 1, b);
        assert(s@.subrange(a as int + 1, b as int) =~= s@.skip(a as int + 1).take(b - (a + 1)));
        (first, Some(piece))
    } else {
        (first, None)
    }
}

/// Takes a mount address apart into the server part and the volume.
pub fn split_target(host: &str) -> (r: (String, String))
    ensures
        r.0@ == target_of(host@).0,
        r.1@ == target_of(host@).1,
{
    let chars = to_chars(host);
    let pieces = two_pieces(&chars, '/');
    let volume = match pieces.1 {
        Some(v) => from_chars(&v),
        None => String::new(),
    };
    (from_chars(&pieces.0), volume)
}

/// Takes a server part apart into the host name and the text of the port.
pub fn split_port(server: &str) -> (r: (String, Option<String>))
    ensures
        r.0@ == host_and_port(server@).0,
        match r.1 {
            Some(p) => host_and_port(server@).1 == Some(p@),
            None => host_and_port(server@).1 is None,
        },
{
    let chars = to_chars(server);
    let pieces = two_pieces(&chars, ':');
    let port = match pieces.1 {
        Some(p) => Some(from_chars(&p)),
        None => None,
    };
    (from_chars(&pieces.0), port)
}

/// The address to use for a host name that resolves to `found`.
pub fn choose_address(found: &Vec<Option<(u8, u8, u8, u8)>>) -> (r: Option<(u8, u8, u8, u8)>)
    ensures
        r == chosen(found@),
{
    let mut ip: Option<(u8, u8, u8, u8)> = None;
    let mut i: usize = 0;
    assert(found@.take(0) =~= Seq::<Option<(u8, u8, u8, u8)>>::empty());
    while i < found.len()
        invariant
            i <= found.len(),
            ip == last_ipv4(found@.take(i as int)),
        decreases found.len() - i,
    {
        assert(found@.take(i as int + 1).drop_last() == found@.take(i as int));
        match found[i] {
            Some(v4) => {
                ip = Some(v4);
            },
            None => {},
        }
        i = i + 1;
    }
    assert(found@.take(found.len() as int) == found@);
    match ip {
        Some(v4) => {
            if v4.0 == 127 && v4.1 == 0 && v4.2 == 0 && v4.3 == 1 {
                None
            } else {
                Some(v4)
            }
        },
        None => None,
    }
}

/// The arguments that the options of a mount are handed on as.
pub fn mount_options(options: &Vec<String>) -> (args: Vec<String>)
    ensures
        texts(args@) == flagged(texts(options@)),
{
    let mut args: Vec<String> = Vec::new();
    let mut i: usize = 0;
    while i < options.len()
        invariant
            i <= options.len(),
            args@.len() == 2 * i,
            forall|k: int|
                0 <= k < 2 * i ==> (#[trigger] args@[k])@ == flagged(texts(options@))[k],
        decreases options.len() - i,
    {
        args.push("-o".to_owned());
        args.push(options[i].clone());
        i = i + 1;
    }
    assert(texts(args@) =~= flagged(texts(options@)));
    args
}

} // verus!
