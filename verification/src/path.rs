use vstd::prelude::*;
use crate::text::push_char;

verus! {

/// The pieces of a path: what stands between its slashes, empty pieces left
/// out.
pub open spec fn pieces(s: Seq<char>) -> Seq<Seq<char>>
    decreases s.len(),
{
    if s.len() == 0 {
        Seq::empty()
    } else if s.last() == '/' {
        pieces(s.drop_last())
    } else if s.len() > 1 && s[s.len() - 2] != '/' {
        let before = pieces(s.drop_last());
        before.drop_last().push(before.last().push(s.last()))
    } else {
        pieces(s.drop_last()).push(seq![s.last()])
    }
}

/// A path that walks one piece on from `base`: `.` stays, `..` goes up where
/// there is anything to leave, any other piece goes down.
pub open spec fn step(base: Seq<Seq<char>>, piece: Seq<char>) -> Seq<Seq<char>> {
    if piece == seq!['.'] {
        base
    } else if piece == seq!['.', '.'] {
        if base.len() > 0 {
            base.drop_last()
        } else {
            base
        }
    } else {
        base.push(piece)
    }
}

/// The path reached from `base` by walking the pieces of `more` in order.
pub open spec fn apply(base: Seq<Seq<char>>, more: Seq<Seq<char>>) -> Seq<Seq<char>>
    decreases more.len(),
{
    if more.len() == 0 {
        base
    } else {
        step(apply(base, more.drop_last()), more.last())
    }
}

/// The pieces of `parts` with a slash between each two.
pub open spec fn join(parts: Seq<Seq<char>>) -> Seq<char>
    decreases parts.len(),
{
    if parts.len() == 0 {
        Seq::empty()
    } else if parts.len() == 1 {
        parts[0]
    } else {
        join(parts.drop_last()) + seq!['/'] + parts.last()
    }
}

/// Whether a path starts at the root.
pub open spec fn is_absolute(s: Seq<char>) -> bool {
    s.len() > 0 && s[0] == '/'
}

/// The text of a path of the given pieces, with a slash in front where it
/// starts at the root.
pub open spec fn render(absolute: bool, parts: Seq<Seq<char>>) -> Seq<char> {
    if absolute {
        seq!['/'] + join(parts)
    } else {
        join(parts)
    }
}

/// The path `base` with `more` appended and resolved by its text alone: an
/// absolute `more` starts over at the root, a relative one walks on from
/// `base`.
pub open spec fn appended(base: Seq<char>, more: Seq<char>) -> Seq<char> {
    if is_absolute(more) {
        render(true, apply(Seq::empty(), pieces(more)))
    } else {
        render(is_absolute(base), apply(pieces(base), pieces(more)))
    }
}

/// The path `p` with `ext` added to its last piece.
pub open spec fn with_ext(p: Seq<Seq<char>>, ext: Seq<char>) -> Seq<Seq<char>> {
    if p.len() == 0 {
        seq![ext]
    } else {
        p.drop_last().push(p.last() + ext)
    }
}

/// Whether a path names a directory by its text alone: it ends in a slash, or
/// its last piece is `.` or `..`.
pub open spec fn names_directory(s: Seq<char>) -> bool {
    s.len() > 0 && (s.last() == '/' || pieces(s).last() == seq!['.'] || pieces(s).last() == seq![
        '.',
        '.',
    ])
}

/// A text that does not end in a slash has a last piece, which ends as the
/// text does.
pub proof fn pieces_of_open_text(s: Seq<char>)
    requires
        s.len() > 0,
        s.last() != '/',
    ensures
        pieces(s).len() > 0,
        pieces(s).last().len() > 0,
        pieces(s).last().last() == s.last(),
    decreases s.len(),
{
    if s.len() > 1 && s[s.len() - 2] != '/' {
        pieces_of_open_text(s.drop_last());
    }
}

/// A path held piece by piece.
pub struct Parts {
    pub items: Vec<String>,
}

impl View for Parts {
    type V = Seq<Seq<char>>;

    open spec fn view(&self) -> Seq<Seq<char>> {
        Seq::new(self.items@.len(), |i: int| self.items@[i]@)
    }
}

impl Clone for Parts {
    fn clone(&self) -> (r: Parts)
        ensures
            r@ == self@,
    {
        let mut items: Vec<String> = Vec::new();
        let mut i: usize = 0;
        while i < self.items.len()
            invariant
                i <= self.items.len(),
                items@.len() == i,
                forall|j: int| 0 <= j < i ==> items@[j]@ == self.items@[j]@,
            decreases self.items.len() - i,
        {
            items.push(self.items[i].clone());
            i += 1;
        }
        let r = Parts { items };
        assert(r@ =~= self@);
        r
    }
}

/// Whether `s` is the one piece `.`.
pub fn is_dot(s: &str) -> (b: bool)
    ensures
        b == (s@ == seq!['.']),
{
    let n = s.unicode_len();
    if n == 1 {
        let c = s.get_char(0);
        assert(s@ =~= seq![c]);
        c == '.'
    } else {
        false
    }
}

/// Whether `s` is the one piece `..`.
pub fn is_dot_dot(s: &str) -> (b: bool)
    ensures
        b == (s@ == seq!['.', '.']),
{
    let n = s.unicode_len();
    if n == 2 {
        let c = s.get_char(0);
        let d = s.get_char(1);
        assert(s@ =~= seq![c, d]);
        c == '.' && d == '.'
    } else {
        false
    }
}

/// Whether `s` starts with a slash.
pub fn starts_at_root(s: &str) -> (b: bool)
    ensures
        b == is_absolute(s@),
{
    let n = s.unicode_len();
    n > 0 && s.get_char(0) == '/'
}

impl Parts {
    /// The path without pieces.
    pub fn new() -> (r: Parts)
        ensures
            r@ == Seq::<Seq<char>>::empty(),
    {
        let r = Parts { items: Vec::new() };
        assert(r@ =~= Seq::<Seq<char>>::empty());
        r
    }

    /// How many pieces the path has.
    pub fn len(&self) -> (n: usize)
        ensures
            n == self@.len(),
    {
        self.items.len()
    }

    /// The `i`th piece.
    pub fn get(&self, i: usize) -> (s: &String)
        requires
            i < self@.len(),
        ensures
            s@ == self@[i as int],
    {
        &self.items[i]
    }

    /// Adds a piece at the end.
    pub fn push(&mut self, piece: String)
        ensures
            final(self)@ == old(self)@.push(piece@),
    {
        self.items.push(piece);
        assert(self@ =~= old(self)@.push(piece@));
    }

    /// Leaves the last piece out, if there is one.
    pub fn pop(&mut self)
        ensures
            final(self)@ == if old(self)@.len() > 0 {
                old(self)@.drop_last()
            } else {
                old(self)@
            },
    {
        if self.items.len() > 0 {
            self.items.pop();
            assert(self@ =~= old(self)@.drop_last());
        }
    }

    /// The pieces of the path `s`.
    pub fn parse(s: &str) -> (r: Parts)
        ensures
            r@ == pieces(s@),
    {
        let mut done = Parts::new();
        let mut cur = String::new();
        for c in it: s.chars()
            invariant
                it.seq() == s@,
                pieces(s@.take(it.index() as int)) == if cur@.len() > 0 {
                    done@.push(cur@)
                } else {
                    done@
                },
                cur@.len() > 0 <==> (it.index() > 0 && s@[it.index() - 1] != '/'),
        {
            proof {
                let k = it.index() as int;
                assert(s@.take(k + 1).drop_last() =~= s@.take(k));
                assert(s@.take(k + 1).last() == c);
                if k > 0 {
                    assert(s@.take(k + 1)[k - 1] == s@[k - 1]);
                }
            }
            if c == '/' {
                if cur.as_str().unicode_len() > 0 {
                    done.push(cur);
                    cur = String::new();
                }
            } else {
                let ghost before = cur@;
                let ghost parts = done@;
                push_char(&mut cur, c);
                proof {
                    if before.len() > 0 {
                        assert(parts.push(before).drop_last().push(parts.push(before).last().push(c))
                            =~= parts.push(cur@));
                    } else {
                        assert(before.push(c) =~= seq![c]);
                    }
                }
            }
        }
        assert(s@.take(s@.len() as int) =~= s@);
        if cur.as_str().unicode_len() > 0 {
            done.push(cur);
        }
        done
    }

    /// The path reached from this one by walking the pieces of `more`.
    pub fn applied(&self, more: &Parts) -> (r: Parts)
        ensures
            r@ == apply(self@, more@),
    {
        let mut r = self.clone();
        let mut i: usize = 0;
        while i < more.len()
            invariant
                i <= more@.len(),
                r@ == apply(self@, more@.take(i as int)),
            decreases more@.len() - i,
        {
            proof {
                assert(more@.take(i + 1).drop_last() =~= more@.take(i as int));
            }
            let piece = more.get(i);
            if is_dot(piece.as_str()) {
            } else if is_dot_dot(piece.as_str()) {
                r.pop();
            } else {
                r.push(piece.clone());
            }
            i += 1;
        }
        assert(more@.take(more@.len() as int) =~= more@);
        r
    }

    /// Whether the two paths have the same pieces.
    pub fn same(&self, other: &Parts) -> (b: bool)
        ensures
            b == (self@ == other@),
    {
        if self.len() != other.len() {
            return false;
        }
        let mut i: usize = 0;
        while i < self.len()
            invariant
                i <= self@.len(),
                self@.len() == other@.len(),
                forall|j: int| 0 <= j < i ==> self@[j] == other@[j],
            decreases self@.len() - i,
        {
            if *self.get(i) != *other.get(i) {
                return false;
            }
            i += 1;
        }
        assert(self@ =~= other@);
        true
    }

    /// Whether this path lies at or below `root`.
    pub fn starts_with(&self, root: &Parts) -> (b: bool)
        ensures
            b == root@.is_prefix_of(self@),
    {
        if root.len() > self.len() {
            return false;
        }
        let mut i: usize = 0;
        while i < root.len()
            invariant
                i <= root@.len(),
                root@.len() <= self@.len(),
                forall|j: int| 0 <= j < i ==> self@[j] == root@[j],
            decreases root@.len() - i,
        {
            if *self.get(i) != *root.get(i) {
                assert(root@[i as int] != self@.subrange(0, root@.len() as int)[i as int]);
                return false;
            }
            i += 1;
        }
        assert(root@ =~= self@.subrange(0, root@.len() as int));
        true
    }

    /// The pieces from the `n`th on.
    pub fn skip(&self, n: usize) -> (r: Parts)
        requires
            n <= self@.len(),
        ensures
            r@ == self@.skip(n as int),
    {
        let mut r = Parts::new();
        let mut i: usize = n;
        while i < self.len()
            invariant
                n <= i <= self@.len(),
                r@ == self@.subrange(n as int, i as int),
            decreases self@.len() - i,
        {
            r.push(self.get(i).clone());
            assert(self@.subrange(n as int, i as int).push(self@[i as int]) =~= self@.subrange(
                n as int,
                i + 1,
            ));
            i += 1;
        }
        assert(self@.skip(n as int) =~= self@.subrange(n as int, self@.len() as int));
        r
    }

    /// The directory that holds this path; the root is its own parent.
    pub fn parent(&self) -> (r: Parts)
        ensures
            r@ == if self@.len() > 0 {
                self@.drop_last()
            } else {
                self@
            },
    {
        let mut r = self.clone();
        r.pop();
        r
    }

    /// This path with one piece more.
    pub fn child(&self, name: &str) -> (r: Parts)
        ensures
            r@ == self@.push(name@),
    {
        let mut r = self.clone();
        r.push(name.to_owned());
        r
    }

    /// This path with `ext` added to its last piece.
    pub fn with_ext(&self, ext: &str) -> (r: Parts)
        ensures
            r@ == with_ext(self@, ext@),
    {
        let mut r = self.clone();
        if r.len() == 0 {
            r.push(ext.to_owned());
            assert(r@ =~= seq![ext@]);
        } else {
            let last = self.get(self.len() - 1).clone();
            r.pop();
            r.push(last.concat(ext));
        }
        r
    }

    /// The text of this path as one that starts at the root if `absolute`.
    pub fn render(&self, absolute: bool) -> (s: String)
        ensures
            s@ == render(absolute, self@),
    {
        let mut s = String::new();
        let mut i: usize = 0;
        while i < self.len()
            invariant
                i <= self@.len(),
                s@ == join(self@.take(i as int)),
            decreases self@.len() - i,
        {
            proof {
                assert(self@.take(i + 1).drop_last() =~= self@.take(i as int));
                if i == 0 {
                    assert(s@ + self@[0] =~= self@[0]);
                }
            }
            if i > 0 {
                s.append("/");
                proof {
                    reveal_strlit("/");
                    assert("/"@ =~= seq!['/']);
                }
            }
            s.append(self.get(i).as_str());
            i += 1;
        }
        assert(self@.take(self@.len() as int) =~= self@);
        if absolute {
            let mut r = String::new();
            r.append("/");
            proof {
                reveal_strlit("/");
                assert("/"@ =~= seq!['/']);
            }
            r.append(s.as_str());
            assert(r@ =~= seq!['/'] + s@);
            r
        } else {
            s
        }
    }
}

/// Appends `more` to the path in `path` and resolves the result by its text
/// alone, without a look at any file system.
pub fn append_resolving(path: &mut String, more: &str)
    ensures
        final(path)@ == appended(old(path)@, more@),
{
    let extra = Parts::parse(more);
    if starts_at_root(more) {
        let r = Parts::new().applied(&extra);
        *path = r.render(true);
    } else {
        let absolute = starts_at_root(path.as_str());
        let r = Parts::parse(path.as_str()).applied(&extra);
        *path = r.render(absolute);
    }
}

} // verus!
