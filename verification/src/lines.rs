use vstd::prelude::*;

verus! {

/// The lines a stream's contents decode to. The stream is split at every
/// newline character; the newline itself belongs to no line. A trailing
/// fragment not ended by a newline is discarded — the policy this runner
/// documents for data still unterminated when a stream closes.
pub open spec fn spec_split_lines(s: Seq<char>) -> Seq<Seq<char>>
    decreases s.len(),
{
    if s.len() == 0 {
        Seq::empty()
    } else if s[0] == '\n' {
        seq![Seq::<char>::empty()] + spec_split_lines(s.skip(1))
    } else {
        let rest = spec_split_lines(s.skip(1));
        if rest.len() == 0 {
            Seq::empty()
        } else {
            seq![seq![s[0]] + rest[0]] + rest.skip(1)
        }
    }
}

/// Text without a newline holds no complete line.
pub proof fn lemma_split_no_newline(u: Seq<char>)
    requires
        forall|j: int| 0 <= j < u.len() ==> u[j] != '\n',
    ensures
        spec_split_lines(u).len() == 0,
    decreases u.len(),
{
    if u.len() > 0 {
        assert forall|j: int| 0 <= j < u.skip(1).len() implies u.skip(1)[j] != '\n' by {
            assert(u.skip(1)[j] == u[j + 1]);
        }
        lemma_split_no_newline(u.skip(1));
    }
}

/// Text ended by a newline holds at least one complete line.
pub proof fn lemma_split_line_count(s: Seq<char>)
    requires
        s.len() >= 1,
        s.last() == '\n',
    ensures
        spec_split_lines(s).len() >= 1,
    decreases s.len(),
{
    if s[0] != '\n' {
        assert(s.len() >= 2);
        assert(s.skip(1).last() == s[s.len() - 1]);
        lemma_split_line_count(s.skip(1));
    }
}

/// Newline-free text followed by one newline is exactly one line: that text.
pub proof fn lemma_split_complete_line(u: Seq<char>)
    requires
        forall|j: int| 0 <= j < u.len() ==> u[j] != '\n',
    ensures
        spec_split_lines(u.push('\n')) == seq![u],
    decreases u.len(),
{
    let s = u.push('\n');
    if u.len() == 0 {
        assert(s[0] == '\n');
        assert(s.skip(1) =~= Seq::<char>::empty());
        assert(Seq::<char>::empty() =~= u);
        assert(spec_split_lines(s.skip(1)) =~= Seq::<Seq<char>>::empty());
        assert(spec_split_lines(s) =~= seq![u]);
    } else {
        assert(s[0] == u[0]);
        assert(s[0] != '\n');
        assert(s.skip(1) =~= u.skip(1).push('\n'));
        assert forall|j: int| 0 <= j < u.skip(1).len() implies u.skip(1)[j] != '\n' by {
            assert(u.skip(1)[j] == u[j + 1]);
        }
        lemma_split_complete_line(u.skip(1));
        let rest = spec_split_lines(s.skip(1));
        assert(rest == seq![u.skip(1)]);
        assert(rest.len() == 1);
        assert(seq![s[0]] + rest[0] =~= u);
        assert(rest.skip(1) =~= Seq::<Seq<char>>::empty());
        assert(spec_split_lines(s) =~= seq![u]);
    }
}

/// Splitting distributes over concatenation at a newline boundary: the lines
/// of `s + t` are the lines of `s` followed by the lines of `t`, whenever
/// `s` is empty or ends with a newline.
pub proof fn lemma_split_append(s: Seq<char>, t: Seq<char>)
    requires
        s.len() == 0 || s.last() == '\n',
    ensures
        spec_split_lines(s + t) == spec_split_lines(s) + spec_split_lines(t),
    decreases s.len(),
{
    if s.len() == 0 {
        assert(s + t =~= t);
        assert(spec_split_lines(s) + spec_split_lines(t) =~= spec_split_lines(t));
    } else {
        let st = s + t;
        assert(st[0] == s[0]);
        assert(st.skip(1) =~= s.skip(1) + t);
        if s.len() >= 2 {
            assert(s.skip(1).last() == s[s.len() - 1]);
        }
        lemma_split_append(s.skip(1), t);
        if s[0] == '\n' {
            assert(spec_split_lines(st) =~= spec_split_lines(s) + spec_split_lines(t));
        } else {
            assert(s.len() >= 2);
            lemma_split_line_count(s.skip(1));
            let rest_s = spec_split_lines(s.skip(1));
            let rest_st = spec_split_lines(st.skip(1));
            assert(rest_st == rest_s + spec_split_lines(t));
            assert(rest_s.len() >= 1);
            assert(rest_st[0] == rest_s[0]);
            assert(rest_st.skip(1) =~= rest_s.skip(1) + spec_split_lines(t));
            assert(spec_split_lines(st) =~= spec_split_lines(s) + spec_split_lines(t));
        }
    }
}

/// Splits a stream's decoded contents into the lines the runner would
/// report for it: one line per newline, in order, the newline removed, and
/// any unterminated trailing fragment discarded.
pub fn split_lines(s: &str) -> (lines: Vec<String>)
    ensures
        lines@.len() == spec_split_lines(s@).len(),
        forall|k: int|
            0 <= k < lines@.len() ==> (#[trigger] lines@[k])@ == spec_split_lines(s@)[k],
{
    let n = s.unicode_len();
    let mut lines: Vec<String> = Vec::new();
    let mut start: usize = 0;
    let mut i: usize = 0;
    while i < n
        invariant
            n == s@.len(),
            start <= i <= n,
            start == 0 || s@[start - 1] == '\n',
            forall|j: int| start <= j < i ==> s@[j] != '\n',
            lines@.len() == spec_split_lines(s@.take(start as int)).len(),
            forall|k: int|
                0 <= k < lines@.len() ==> (#[trigger] lines@[k])@ == spec_split_lines(
                    s@.take(start as int),
                )[k],
        decreases n - i,
    {
        let c = s.get_char(i);
        if c == '\n' {
            let piece = s.substring_char(start, i);
            let line = String::from_str(piece);
            proof {
                let pre = s@.take(start as int);
                let seg = s@.subrange(start as int, i as int);
                assert forall|j: int| 0 <= j < seg.len() implies seg[j] != '\n' by {
                    assert(seg[j] == s@[start + j]);
                }
                if start > 0 {
                    assert(pre.last() == s@[start - 1]);
                }
                lemma_split_complete_line(seg);
                lemma_split_append(pre, seg.push('\n'));
                assert(pre + seg.push('\n') =~= s@.take(i as int + 1));
                assert(spec_split_lines(s@.take(i as int + 1)) == spec_split_lines(pre) + seq![
                    seg,
                ]);
            }
            lines.push(line);
            start = i + 1;
        }
        i += 1;
    }
    proof {
        let pre = s@.take(start as int);
        let seg = s@.skip(start as int);
        assert forall|j: int| 0 <= j < seg.len() implies seg[j] != '\n' by {
            assert(seg[j] == s@[start + j]);
        }
        if start > 0 {
            assert(pre.last() == s@[start - 1]);
        }
        lemma_split_no_newline(seg);
        lemma_split_append(pre, seg);
        assert(pre + seg =~= s@);
    }
    lines
}

} // verus!
