//! Paths as sequences of characters: joining a path onto a volume root,
//! splitting into components, and the test that keeps a host path inside
//! its volume.

use path_absolutize::Absolutize;
use std::path::Path;
use vstd::prelude::*;

verus! {

/// A path that starts at the host's root directory.
pub open spec fn is_absolute(p: Seq<char>) -> bool {
    p.len() > 0 && p[0] == '/'
}

/// `p` with every run of separators collapsed into one separator.
pub open spec fn squeeze(p: Seq<char>) -> Seq<char>
    decreases p.len(),
{
    if p.len() == 0 {
        Seq::empty()
    } else {
        let head = squeeze(p.drop_last());
        if p.last() == '/' && head.len() > 0 && head.last() == '/' {
            head
        } else {
            head.push(p.last())
        }
    }
}

/// `p` without its trailing separator; the lone separator stays.
pub open spec fn trim_separator(p: Seq<char>) -> Seq<char> {
    if p.len() > 1 && p.last() == '/' {
        p.drop_last()
    } else {
        p
    }
}

/// `path` appended to `root` as text, with one separator between them,
/// doubled separators collapsed and no separator at the end.
pub open spec fn joined(root: Seq<char>, path: Seq<char>) -> Seq<char> {
    trim_separator(squeeze(root + seq!['/'] + path))
}

/// A piece between separators that names something: neither empty nor `.`.
pub open spec fn names_something(piece: Seq<char>) -> bool {
    piece.len() > 0 && !(piece.len() == 1 && piece[0] == '.')
}

/// The piece `..`, which names the parent directory.
pub open spec fn is_parent(piece: Seq<char>) -> bool {
    piece.len() == 2 && piece[0] == '.' && piece[1] == '.'
}

/// `done` with the piece `cur` added if it names something.
pub open spec fn flush(done: Seq<Seq<char>>, cur: Seq<char>) -> Seq<Seq<char>> {
    if names_something(cur) {
        done.push(cur)
    } else {
        done
    }
}

/// Reading `p` from the left: the components that are complete, and the
/// piece after the last separator.
pub open spec fn scan(p: Seq<char>) -> (Seq<Seq<char>>, Seq<char>)
    decreases p.len(),
{
    if p.len() == 0 {
        (Seq::empty(), Seq::empty())
    } else {
        let (done, cur) = scan(p.drop_last());
        if p.last() == '/' {
            (flush(done, cur), Seq::empty())
        } else {
            (done, cur.push(p.last()))
        }
    }
}

/// The components of a path: its pieces between separators, in order,
/// without the empty ones and the `.` ones.
pub open spec fn components(p: Seq<char>) -> Seq<Seq<char>> {
    flush(scan(p).0, scan(p).1)
}

/// No component names the parent directory.
pub open spec fn stays_below(cs: Seq<Seq<char>>) -> bool {
    forall|i: int| 0 <= i < cs.len() ==> !is_parent(#[trigger] cs[i])
}

/// The jail: `p` is absolute, begins with the components of `root`, and
/// never steps to a parent directory.
pub open spec fn within(root: Seq<char>, p: Seq<char>) -> bool {
    &&& is_absolute(p)
    &&& components(root).is_prefix_of(components(p))
    &&& stays_below(components(p))
}

/// The components written one after the other, a separator before each.
pub open spec fn slashed(cs: Seq<Seq<char>>) -> Seq<char>
    decreases cs.len(),
{
    if cs.len() == 0 {
        Seq::empty()
    } else {
        slashed(cs.drop_last()) + seq!['/'] + cs.last()
    }
}

/// The absolute path with the given components.
pub open spec fn rooted(cs: Seq<Seq<char>>) -> Seq<char> {
    if cs.len() == 0 {
        seq!['/']
    } else {
        slashed(cs)
    }
}

/// A host path as seen from inside the volume: what follows the root's
/// components, as an absolute path. A path outside the root is left as it is.
pub open spec fn volume_relative(root: Seq<char>, host: Seq<char>) -> Seq<char> {
    if components(root).is_prefix_of(components(host)) {
        rooted(components(host).skip(components(root).len() as int))
    } else {
        host
    }
}

/// `name` below `parent`: an absolute `name` stands for itself, otherwise it
/// follows `parent` after a separator, which is added unless `parent` is empty
/// or already ends in one.
pub open spec fn child_of(parent: Seq<char>, name: Seq<char>) -> Seq<char> {
    if is_absolute(name) {
        name
    } else if parent.len() == 0 || parent.last() == '/' {
        parent + name
    } else {
        parent + seq!['/'] + name
    }
}

/// The last component of a path.
pub open spec fn last_component(p: Seq<char>) -> Option<Seq<char>> {
    if components(p).len() == 0 {
        None
    } else {
        Some(components(p).last())
    }
}

/// The name of the file or directory that a path ends in: its last
/// component, unless that is `..`.
pub open spec fn base_name(p: Seq<char>) -> Option<Seq<char>> {
    match last_component(p) {
        Some(c) => if is_parent(c) {
            None
        } else {
            Some(c)
        },
        None => None,
    }
}

/// A squeezed path begins as the path does.
pub proof fn lemma_squeeze_keeps_start(p: Seq<char>)
    requires
        p.len() > 0,
    ensures
        squeeze(p).len() > 0,
        squeeze(p)[0] == p[0],
    decreases p.len(),
{
    if p.len() > 1 {
        lemma_squeeze_keeps_start(p.drop_last());
    } else {
        assert(squeeze(p.drop_last()).len() == 0);
    }
}

/// No two separators stand side by side.
pub open spec fn has_single_separators(s: Seq<char>) -> bool {
    forall|i: int| 0 < i < s.len() ==> !(s[i - 1] == '/' && #[trigger] s[i] == '/')
}

/// No two separators stand side by side in a squeezed path.
pub proof fn lemma_squeeze_has_single_separators(p: Seq<char>)
    ensures
        has_single_separators(squeeze(p)),
    decreases p.len(),
{
    if p.len() > 0 {
        lemma_squeeze_has_single_separators(p.drop_last());
        let head = squeeze(p.drop_last());
        let s = squeeze(p);
        assert forall|i: int| 0 < i < s.len() implies !(s[i - 1] == '/' && #[trigger] s[i]
            == '/') by {
            if i < head.len() {
                assert(s[i] == head[i]);
                assert(s[i - 1] == head[i - 1]);
            }
        }
    }
}

/// A path joined onto an absolute root is absolute, and it ends in a
/// separator only where it is the lone separator.
pub proof fn lemma_joined_is_clean(root: Seq<char>, path: Seq<char>)
    requires
        is_absolute(root),
    ensures
        is_absolute(joined(root, path)),
        has_single_separators(joined(root, path)),
        joined(root, path).len() > 1 ==> joined(root, path).last() != '/',
{
    let text = root + seq!['/'] + path;
    assert(text[0] == root[0]);
    lemma_squeeze_keeps_start(text);
    lemma_squeeze_has_single_separators(text);
    let s = squeeze(text);
    let j = joined(root, path);
    assert forall|i: int| 0 < i < j.len() implies !(j[i - 1] == '/' && #[trigger] j[i] == '/') by {
        assert(j[i] == s[i]);
        assert(j[i - 1] == s[i - 1]);
    }
    if j.len() > 1 && j.last() == '/' {
        if s.len() > 1 && s.last() == '/' {
            assert(s[s.len() - 2] == j.last());
            assert(s[s.len() - 1] == '/');
        }
    }
}

/// Reading on behind a separator: what was complete stays, and what follows
/// is read as if it stood alone.
proof fn lemma_scan_behind_separator(x: Seq<char>, b: Seq<char>)
    requires
        x.len() > 0,
        x.last() == '/',
    ensures
        scan(x + b).0 == scan(x).0 + scan(b).0,
        scan(x + b).1 == scan(b).1,
    decreases b.len(),
{
    if b.len() == 0 {
        assert(x + b =~= x);
        assert(scan(x).0 + scan(b).0 =~= scan(x).0);
    } else {
        lemma_scan_behind_separator(x, b.drop_last());
        assert((x + b).drop_last() =~= x + b.drop_last());
        let before = scan(b.drop_last());
        if b.last() == '/' {
            assert(flush(scan(x).0 + before.0, before.1) =~= scan(x).0 + flush(
                before.0,
                before.1,
            ));
        }
    }
}

/// The components of two paths with a separator between them are those of
/// the first followed by those of the second.
pub proof fn lemma_components_of_concat(a: Seq<char>, b: Seq<char>)
    ensures
        components(a + seq!['/'] + b) == components(a) + components(b),
{
    let x = a + seq!['/'];
    assert(x.drop_last() =~= a);
    assert(scan(x).0 == components(a));
    lemma_scan_behind_separator(x, b);
    assert(flush(components(a) + scan(b).0, scan(b).1) =~= components(a) + flush(
        scan(b).0,
        scan(b).1,
    ));
}

/// Squeezing changes nothing for the reader of a path.
proof fn lemma_scan_of_squeeze(p: Seq<char>)
    ensures
        scan(squeeze(p)) == scan(p),
    decreases p.len(),
{
    if p.len() > 0 {
        lemma_scan_of_squeeze(p.drop_last());
        let head = squeeze(p.drop_last());
        if p.last() == '/' && head.len() > 0 && head.last() == '/' {
            assert(scan(head).1 =~= Seq::<char>::empty());
        } else {
            assert(head.push(p.last()).drop_last() =~= head);
        }
    }
}

/// Squeezing a path and trimming its separator leave its components as they are.
pub proof fn lemma_components_of_clean(p: Seq<char>)
    ensures
        components(squeeze(p)) == components(p),
        components(trim_separator(p)) == components(p),
{
    lemma_scan_of_squeeze(p);
    if p.len() > 1 && p.last() == '/' {
        assert(scan(p).1 =~= Seq::<char>::empty());
    }
}

/// The components of a joined path are those of the root followed by those
/// of the path.
pub proof fn lemma_components_of_joined(root: Seq<char>, path: Seq<char>)
    ensures
        components(joined(root, path)) == components(root) + components(path),
{
    let text = root + seq!['/'] + path;
    lemma_components_of_clean(squeeze(text));
    lemma_components_of_clean(text);
    lemma_components_of_concat(root, path);
}

/// Seen from inside the volume, a path joined onto the root is the path
/// itself, written without needless separators and dots.
pub proof fn lemma_relative_of_joined(root: Seq<char>, path: Seq<char>)
    ensures
        volume_relative(root, joined(root, path)) == rooted(components(path)),
{
    lemma_components_of_joined(root, path);
    let all = components(root) + components(path);
    assert(all.subrange(0, components(root).len() as int) =~= components(root));
    assert(all.skip(components(root).len() as int) =~= components(path));
}

/// A name: a piece that names something and holds no separator.
pub open spec fn is_name(piece: Seq<char>) -> bool {
    names_something(piece) && forall|i: int| 0 <= i < piece.len() ==> piece[i] != '/'
}

/// Every piece is a name.
pub open spec fn all_names(cs: Seq<Seq<char>>) -> bool {
    forall|i: int| 0 <= i < cs.len() ==> is_name(#[trigger] cs[i])
}

proof fn lemma_scan_gives_names(p: Seq<char>)
    ensures
        all_names(scan(p).0),
        forall|i: int| 0 <= i < scan(p).1.len() ==> scan(p).1[i] != '/',
    decreases p.len(),
{
    if p.len() > 0 {
        lemma_scan_gives_names(p.drop_last());
    }
}

/// The components of a path are names.
pub proof fn lemma_components_are_names(p: Seq<char>)
    ensures
        all_names(components(p)),
{
    lemma_scan_gives_names(p);
}

proof fn lemma_scan_of_name(name: Seq<char>)
    requires
        forall|i: int| 0 <= i < name.len() ==> name[i] != '/',
    ensures
        scan(name).0.len() == 0,
        scan(name).1 == name,
    decreases name.len(),
{
    if name.len() > 0 {
        lemma_scan_of_name(name.drop_last());
        assert(name.drop_last().push(name.last()) =~= name);
    } else {
        assert(name =~= Seq::<char>::empty());
    }
}

/// A name is its own and only component.
pub proof fn lemma_components_of_name(name: Seq<char>)
    requires
        is_name(name),
    ensures
        components(name) == seq![name],
{
    lemma_scan_of_name(name);
    assert(components(name) =~= seq![name]);
}

/// Names written as an absolute path are the components of that path.
pub proof fn lemma_components_of_rooted(cs: Seq<Seq<char>>)
    requires
        all_names(cs),
    ensures
        components(rooted(cs)) == cs,
    decreases cs.len(),
{
    if cs.len() == 0 {
        reveal_with_fuel(scan, 2);
        assert(seq!['/'].drop_last() =~= Seq::<char>::empty());
        assert(components(seq!['/']) =~= cs);
    } else {
        let front = cs.drop_last();
        assert(all_names(front)) by {
            assert forall|i: int| 0 <= i < front.len() implies is_name(#[trigger] front[i]) by {
                assert(front[i] == cs[i]);
            }
        }
        lemma_components_of_concat(slashed(front), cs.last());
        assert(is_name(cs[cs.len() - 1]));
        lemma_scan_of_name(cs.last());
        assert(components(cs.last()) =~= seq![cs.last()]);
        if front.len() == 0 {
            assert(slashed(front) =~= Seq::<char>::empty());
            assert(components(Seq::<char>::empty()) =~= Seq::<Seq<char>>::empty());
        } else {
            lemma_components_of_rooted(front);
        }
        assert(front + seq![cs.last()] =~= cs);
    }
}

/// A host path inside a volume, seen from inside the volume and joined onto
/// the root again, leads to the same place.
pub proof fn lemma_relative_leads_back(root: Seq<char>, host: Seq<char>)
    requires
        components(root).is_prefix_of(components(host)),
    ensures
        components(joined(root, volume_relative(root, host))) == components(host),
{
    let n = components(root).len() as int;
    let rest = components(host).skip(n);
    lemma_components_are_names(host);
    assert(all_names(rest)) by {
        assert forall|i: int| 0 <= i < rest.len() implies is_name(#[trigger] rest[i]) by {
            assert(rest[i] == components(host)[n + i]);
        }
    }
    lemma_components_of_rooted(rest);
    lemma_components_of_joined(root, rooted(rest));
    assert(components(root) + rest =~= components(host));
}

/// The components of a path once each `..` has removed the component before
/// it. At the host's root there is nothing to remove, and `..` is dropped.
pub open spec fn climbed(cs: Seq<Seq<char>>) -> Seq<Seq<char>>
    decreases cs.len(),
{
    if cs.len() == 0 {
        Seq::empty()
    } else {
        let before = climbed(cs.drop_last());
        if !is_parent(cs.last()) {
            before.push(cs.last())
        } else if before.len() > 0 {
            before.drop_last()
        } else {
            before
        }
    }
}

/// The canonical form of an absolute path: the host's root followed by the
/// components that are left when `.` is dropped and `..` has climbed.
pub open spec fn canonical(path: Seq<char>) -> Seq<char> {
    rooted(climbed(components(path)))
}

/// The canonical host path of a volume-relative path: the two joined and
/// brought into canonical form. A join that is not absolute has none.
pub open spec fn resolved(root: Seq<char>, path: Seq<char>) -> Option<Seq<char>> {
    if is_absolute(joined(root, path)) {
        Some(canonical(joined(root, path)))
    } else {
        None
    }
}

/// What is left after climbing are the names of the path, none of them `..`.
pub proof fn lemma_climbed_is_plain(cs: Seq<Seq<char>>)
    requires
        all_names(cs),
    ensures
        all_names(climbed(cs)),
        stays_below(climbed(cs)),
    decreases cs.len(),
{
    if cs.len() > 0 {
        let front = cs.drop_last();
        assert(all_names(front)) by {
            assert forall|i: int| 0 <= i < front.len() implies is_name(#[trigger] front[i]) by {
                assert(front[i] == cs[i]);
            }
        }
        lemma_climbed_is_plain(front);
        let before = climbed(front);
        let after = climbed(cs);
        assert(is_name(cs[cs.len() - 1]));
        assert forall|i: int| 0 <= i < after.len() implies is_name(#[trigger] after[i])
            && !is_parent(after[i]) by {
            if i < before.len() {
                assert(after[i] == before[i]);
            }
        }
    }
}

/// Components without `..` are left as they are by climbing.
pub proof fn lemma_climbed_of_plain(cs: Seq<Seq<char>>)
    requires
        stays_below(cs),
    ensures
        climbed(cs) == cs,
    decreases cs.len(),
{
    if cs.len() > 0 {
        let front = cs.drop_last();
        assert(stays_below(front)) by {
            assert forall|i: int| 0 <= i < front.len() implies !is_parent(#[trigger] front[i]) by {
                assert(front[i] == cs[i]);
            }
        }
        lemma_climbed_of_plain(front);
        assert(!is_parent(cs[cs.len() - 1]));
        assert(front.push(cs.last()) =~= cs);
    } else {
        assert(cs =~= Seq::<Seq<char>>::empty());
    }
}

/// An absolute path written from components begins at the host's root.
pub proof fn lemma_rooted_is_absolute(cs: Seq<Seq<char>>)
    ensures
        is_absolute(rooted(cs)),
    decreases cs.len(),
{
    if cs.len() > 1 {
        lemma_rooted_is_absolute(cs.drop_last());
    } else if cs.len() == 1 {
        assert(slashed(cs.drop_last()).len() == 0);
    }
}

/// The canonical form is absolute, and its components are those of the path
/// after climbing: names, none of them `..`.
pub proof fn lemma_components_of_canonical(path: Seq<char>)
    ensures
        is_absolute(canonical(path)),
        components(canonical(path)) == climbed(components(path)),
        stays_below(components(canonical(path))),
{
    lemma_components_are_names(path);
    lemma_climbed_is_plain(components(path));
    lemma_components_of_rooted(climbed(components(path)));
    lemma_rooted_is_absolute(climbed(components(path)));
}

/// `Absolutize::absolutize_from` of path-absolutize, for an absolute `path`.
/// Its first component is then the root, so `base`, which stands in for the
/// working directory, is not read. Each further component is pushed, `..`
/// removes the one before it unless only the root is left, and the result is
/// written with one separator between components; `.` and empty pieces never
/// come as components. A path that does not start at the root is left out:
/// there the outside function can run out of components and panic.
#[verifier::external_body]
fn absolutize_from(path: &str, base: &str) -> (r: Option<String>)
    requires
        is_absolute(path@),
    ensures
        match r {
            Some(s) => s@ == canonical(path@),
            None => false,
        },
{
    match Path::new(path).absolutize_from(Path::new(base)) {
        Ok(p) => p.to_str().map(String::from),
        Err(_) => None,
    }
}

/// `String::push`: the string grows by the one character at its end.
#[verifier::external_body]
fn push_char(s: &mut String, c: char)
    ensures
        final(s)@ == old(s)@.push(c),
{
    s.push(c)
}

/// The characters of a string, one by one.
pub fn to_chars(s: &str) -> (v: Vec<char>)
    ensures
        v@ == s@,
{
    let mut v: Vec<char> = Vec::new();
    for c in it: s.chars()
        invariant
            it.seq() == s@,
            v@ == s@.take(it.index()),
    {
        assert(s@.take(it.index() + 1) == s@.take(it.index()).push(c));
        v.push(c);
    }
    assert(s@.take(s@.len() as int) == s@);
    v
}

/// The string made of the given characters.
pub fn from_chars(v: &Vec<char>) -> (s: String)
    ensures
        s@ == v@,
{
    let mut s = String::new();
    let mut i: usize = 0;
    while i < v.len()
        invariant
            i <= v.len(),
            s@ == v@.take(i as int),
        decreases v.len() - i,
    {
        push_char(&mut s, v[i]);
        i = i + 1;
        assert(v@.take(i as int) == v@.take(i as int - 1).push(v@[i as int - 1]));
    }
    assert(v@.take(v.len() as int) == v@);
    s
}

fn push_all(out: &mut Vec<char>, src: &Vec<char>)
    ensures
        final(out)@ == old(out)@ + src@,
{
    let mut i: usize = 0;
    while i < src.len()
        invariant
            i <= src.len(),
            out@ == old(out)@ + src@.take(i as int),
        decreases src.len() - i,
    {
        out.push(src[i]);
        i = i + 1;
        assert(src@.take(i as int) == src@.take(i as int - 1).push(src@[i as int - 1]));
    }
    assert(src@.take(src.len() as int) == src@);
}

fn same_chars(a: &Vec<char>, b: &Vec<char>) -> (same: bool)
    ensures
        same == (a@ == b@),
{
    if a.len() != b.len() {
        return false;
    }
    let mut i: usize = 0;
    while i < a.len()
        invariant
            i <= a.len(),
            a.len() == b.len(),
            forall|j: int| 0 <= j < i ==> a@[j] == b@[j],
        decreases a.len() - i,
    {
        if a[i] != b[i] {
            return false;
        }
        i = i + 1;
    }
    assert(a@ =~= b@);
    true
}

fn squeeze_chars(p: &Vec<char>) -> (out: Vec<char>)
    ensures
        out@ == squeeze(p@),
{
    let mut out: Vec<char> = Vec::new();
    let mut i: usize = 0;
    while i < p.len()
        invariant
            i <= p.len(),
            out@ == squeeze(p@.take(i as int)),
        decreases p.len() - i,
    {
        let c = p[i];
        let n = out.len();
        assert(p@.take(i as int + 1).drop_last() == p@.take(i as int));
        if !(c == '/' && n > 0 && out[n - 1] == '/') {
            out.push(c);
        }
        i = i + 1;
    }
    assert(p@.take(p.len() as int) == p@);
    out
}

fn join_chars(root: &str, path: &str) -> (out: Vec<char>)
    ensures
        out@ == joined(root@, path@),
{
    let mut text = to_chars(root);
    text.push('/');
    let tail = to_chars(path);
    push_all(&mut text, &tail);
    assert(text@ == root@ + seq!['/'] + path@);
    let mut out = squeeze_chars(&text);
    let n = out.len();
    if n > 1 && out[n - 1] == '/' {
        out.pop();
        assert(out@ == squeeze(text@).drop_last());
    }
    out
}

/// `path` appended to `root` as text, ready to be resolved.
pub fn join(root: &str, path: &str) -> (out: String)
    ensures
        out@ == joined(root@, path@),
{
    let chars = join_chars(root, path);
    from_chars(&chars)
}

/// The canonical host path that a volume-relative path stands for, if the
/// two join to an absolute path.
pub fn resolve(root: &str, path: &str) -> (r: Option<String>)
    ensures
        match r {
            Some(s) => resolved(root@, path@) == Some(s@),
            None => resolved(root@, path@) is None,
        },
{
    let chars = join_chars(root, path);
    if chars.len() == 0 || chars[0] != '/' {
        return None;
    }
    let text = from_chars(&chars);
    absolutize_from(text.as_str(), root)
}

/// The character sequences that a list of character vectors holds.
pub open spec fn pieces(v: Seq<Vec<char>>) -> Seq<Seq<char>> {
    Seq::new(v.len(), |i: int| v[i]@)
}

fn keeps(piece: &Vec<char>) -> (keep: bool)
    ensures
        keep == names_something(piece@),
{
    piece.len() > 0 && !(piece.len() == 1 && piece[0] == '.')
}

fn split(p: &Vec<char>) -> (done: Vec<Vec<char>>)
    ensures
        pieces(done@) == components(p@),
{
    let mut done: Vec<Vec<char>> = Vec::new();
    let mut cur: Vec<char> = Vec::new();
    let mut i: usize = 0;
    assert(pieces(done@) =~= Seq::<Seq<char>>::empty());
    while i < p.len()
        invariant
            i <= p.len(),
            pieces(done@) == scan(p@.take(i as int)).0,
            cur@ == scan(p@.take(i as int)).1,
        decreases p.len() - i,
    {
        let c = p[i];
        assert(p@.take(i as int + 1).drop_last() == p@.take(i as int));
        if c == '/' {
            if keeps(&cur) {
                let ghost before = pieces(done@);
                done.push(cur);
                assert(pieces(done@) =~= before.push(cur@));
            }
            cur = Vec::new();
        } else {
            cur.push(c);
        }
        i = i + 1;
    }
    assert(p@.take(p.len() as int) == p@);
    if keeps(&cur) {
        let ghost before = pieces(done@);
        done.push(cur);
        assert(pieces(done@) =~= before.push(cur@));
    }
    done
}

fn begins_with(whole: &Vec<Vec<char>>, start: &Vec<Vec<char>>) -> (b: bool)
    ensures
        b == pieces(start@).is_prefix_of(pieces(whole@)),
{
    if start.len() > whole.len() {
        return false;
    }
    let mut i: usize = 0;
    while i < start.len()
        invariant
            i <= start.len(),
            start.len() <= whole.len(),
            forall|j: int| 0 <= j < i ==> pieces(start@)[j] == pieces(whole@)[j],
        decreases start.len() - i,
    {
        if !same_chars(&start[i], &whole[i]) {
            assert(pieces(start@)[i as int] != pieces(whole@).subrange(
                0,
                start.len() as int,
            )[i as int]);
            return false;
        }
        i = i + 1;
    }
    assert(pieces(start@) =~= pieces(whole@).subrange(0, start.len() as int));
    true
}

fn climbs(cs: &Vec<Vec<char>>) -> (b: bool)
    ensures
        b == !stays_below(pieces(cs@)),
{
    let mut i: usize = 0;
    while i < cs.len()
        invariant
            i <= cs.len(),
            forall|j: int| 0 <= j < i ==> !is_parent(#[trigger] pieces(cs@)[j]),
        decreases cs.len() - i,
    {
        let piece = &cs[i];
        if piece.len() == 2 && piece[0] == '.' && piece[1] == '.' {
            assert(is_parent(pieces(cs@)[i as int]));
            return true;
        }
        i = i + 1;
    }
    false
}

/// Whether the host path `p` lies inside the volume rooted at `root`.
pub fn is_within(root: &str, p: &str) -> (b: bool)
    ensures
        b == within(root@, p@),
{
    let chars = to_chars(p);
    if chars.len() == 0 || chars[0] != '/' {
        return false;
    }
    let have = split(&chars);
    let want = split(&to_chars(root));
    begins_with(&have, &want) && !climbs(&have)
}

fn rooted_from(cs: &Vec<Vec<char>>, start: usize) -> (out: Vec<char>)
    requires
        start <= cs.len(),
    ensures
        out@ == rooted(pieces(cs@).skip(start as int)),
{
    let mut out: Vec<char> = Vec::new();
    let ghost all = pieces(cs@);
    if start == cs.len() {
        out.push('/');
        assert(out@ =~= seq!['/']);
        return out;
    }
    let mut i: usize = start;
    while i < cs.len()
        invariant
            start <= i <= cs.len(),
            all == pieces(cs@),
            out@ == slashed(all.subrange(start as int, i as int)),
        decreases cs.len() - i,
    {
        assert(all.subrange(start as int, i as int + 1).drop_last() == all.subrange(
            start as int,
            i as int,
        ));
        out.push('/');
        push_all(&mut out, &cs[i]);
        i = i + 1;
    }
    assert(all.subrange(start as int, cs.len() as int) == all.skip(start as int));
    out
}

/// A host path as seen from inside the volume rooted at `root`.
pub fn relative_to(root: &str, host: &str) -> (out: String)
    ensures
        out@ == volume_relative(root@, host@),
{
    let have = split(&to_chars(host));
    let want = split(&to_chars(root));
    if begins_with(&have, &want) {
        let chars = rooted_from(&have, want.len());
        from_chars(&chars)
    } else {
        let chars = to_chars(host);
        from_chars(&chars)
    }
}

/// The path of `name` below `parent`.
pub fn child_path(parent: &str, name: &str) -> (out: String)
    ensures
        out@ == child_of(parent@, name@),
{
    let tail = to_chars(name);
    if tail.len() > 0 && tail[0] == '/' {
        return from_chars(&tail);
    }
    let mut text = to_chars(parent);
    let n = text.len();
    if n > 0 && text[n - 1] != '/' {
        text.push('/');
    }
    push_all(&mut text, &tail);
    from_chars(&text)
}

/// The last component of a path, if it has one.
pub fn final_component(p: &str) -> (r: Option<String>)
    ensures
        match r {
            Some(s) => last_component(p@) == Some(s@),
            None => last_component(p@) is None,
        },
{
    let mut cs = split(&to_chars(p));
    let ghost all = pieces(cs@);
    match cs.pop() {
        Some(c) => {
            assert(c@ == all.last());
            Some(from_chars(&c))
        },
        None => None,
    }
}

/// The name that a path ends in, if it ends in one.
pub fn file_name(p: &str) -> (r: Option<String>)
    ensures
        match r {
            Some(s) => base_name(p@) == Some(s@),
            None => base_name(p@) is None,
        },
{
    let mut cs = split(&to_chars(p));
    let ghost all = pieces(cs@);
    match cs.pop() {
        Some(c) => {
            assert(c@ == all.last());
            if c.len() == 2 && c[0] == '.' && c[1] == '.' {
                None
            } else {
                Some(from_chars(&c))
            }
        },
        None => None,
    }
}

} // verus!
