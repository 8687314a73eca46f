use vstd::prelude::*;
use crate::lines::{count_of, count_of_absent, count_of_concat};
use crate::text::push_char;
use crate::vlq::{vlq_encode, vlq_units_shape, zigzag, Vlq};

verus! {

/// Where a line of the bundle comes from: the index of a source, and a line
/// of it, both counted from zero.
pub type Origin = (int, int);

/// The segment for a line that comes from `cur`, after a line that came from
/// `prev`: the column zero of the bundle, the source and the line by their
/// differences from the last, the column zero of the source.
pub open spec fn segment(prev: Origin, cur: Origin) -> Seq<char> {
    seq!['A'] + vlq_encode(cur.0 - prev.0) + vlq_encode(cur.1 - prev.1) + seq!['A']
}

/// The mappings of a bundle whose lines come from `origins`: one segment a
/// line, a semicolon between each two lines.
pub open spec fn mappings(origins: Seq<Origin>) -> Seq<char>
    decreases origins.len(),
{
    if origins.len() == 0 {
        Seq::empty()
    } else if origins.len() == 1 {
        segment((0, 0), origins[0])
    } else {
        mappings(origins.drop_last()) + seq![';'] + segment(
            origins[origins.len() - 2],
            origins.last(),
        )
    }
}

/// A segment holds no semicolon.
pub proof fn segment_has_no_separator(prev: Origin, cur: Origin)
    ensures
        count_of(segment(prev, cur), ';') == 0,
{
    let a = vlq_encode(cur.0 - prev.0);
    let b = vlq_encode(cur.1 - prev.1);
    vlq_units_shape(zigzag(cur.0 - prev.0));
    vlq_units_shape(zigzag(cur.1 - prev.1));
    let s = segment(prev, cur);
    assert forall|i: int| 0 <= i < s.len() implies s[i] != ';' by {
        if i == 0 {
        } else if i < 1 + a.len() {
            assert(s[i] == a[i - 1]);
        } else if i < 1 + a.len() + b.len() {
            assert(s[i] == b[i - 1 - a.len()]);
        } else {
        }
    }
    count_of_absent(s, ';');
}

/// The mappings of a bundle hold as many semicolons as the bundle has lines,
/// less one.
pub proof fn mappings_separate_lines(origins: Seq<Origin>)
    requires
        origins.len() > 0,
    ensures
        count_of(mappings(origins), ';') == origins.len() - 1,
    decreases origins.len(),
{
    if origins.len() == 1 {
        segment_has_no_separator((0, 0), origins[0]);
    } else {
        let head = mappings(origins.drop_last());
        let last = segment(origins[origins.len() - 2], origins.last());
        mappings_separate_lines(origins.drop_last());
        segment_has_no_separator(origins[origins.len() - 2], origins.last());
        count_of_concat(head, seq![';'], ';');
        count_of_concat(head + seq![';'], last, ';');
        assert(count_of(seq![';'], ';') == 1) by {
            let one = seq![';'];
            assert(one.drop_last() =~= Seq::<char>::empty());
            assert(count_of(one.drop_last(), ';') == 0);
            assert(one.last() == ';');
        }
    }
}

/// Origins as plain values.
pub open spec fn origins_view(origins: Seq<(usize, usize)>) -> Seq<Origin> {
    Seq::new(origins.len(), |i: int| (origins[i].0 as int, origins[i].1 as int))
}

/// The segment for a line from `cur` after a line from `prev`.
fn write_segment(out: &mut String, prev: (usize, usize), cur: (usize, usize))
    ensures
        final(out)@ == old(out)@ + segment(
            (prev.0 as int, prev.1 as int),
            (cur.0 as int, cur.1 as int),
        ),
{
    let mut vlq = Vlq::new();
    let source = vlq.enc_wide(cur.0 as i128 - prev.0 as i128);
    let line = vlq.enc_wide(cur.1 as i128 - prev.1 as i128);
    let ghost start = out@;
    push_char(out, 'A');
    out.append(source.as_str());
    out.append(line.as_str());
    push_char(out, 'A');
    assert(out@ =~= start + segment((prev.0 as int, prev.1 as int), (cur.0 as int, cur.1 as int)));
}

/// The mappings of a bundle whose lines come from `origins`.
pub fn write_mappings(origins: &Vec<(usize, usize)>) -> (out: String)
    ensures
        out@ == mappings(origins_view(origins@)),
{
    let mut out = String::new();
    let ghost all = origins_view(origins@);
    let mut i: usize = 0;
    assert(all.take(0) =~= Seq::empty());
    while i < origins.len()
        invariant
            i <= origins@.len(),
            all == origins_view(origins@),
            out@ == mappings(all.take(i as int)),
        decreases origins@.len() - i,
    {
        proof {
            assert(all.take(i + 1).drop_last() =~= all.take(i as int));
            assert(all.take(i + 1).last() == all[i as int]);
            if i > 0 {
                assert(all.take(i + 1)[i - 1] == all[i - 1]);
            }
        }
        if i == 0 {
            let ghost start = out@;
            write_segment(&mut out, (0, 0), origins[i]);
            assert(out@ =~= segment((0, 0), all[0]));
        } else {
            let ghost start = out@;
            push_char(&mut out, ';');
            write_segment(&mut out, origins[i - 1], origins[i]);
            assert(out@ =~= start + seq![';'] + segment(all[i - 1], all[i as int]));
        }
        i += 1;
    }
    assert(all.take(all.len() as int) =~= all);
    out
}

} // verus!
