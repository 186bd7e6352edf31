//! Notes are stored on disk as a list of lines rather than one text blob.
//! Splitting follows `\n`; a final newline does not make an empty last line.
//! Joining writes every line followed by `\n`.

use vstd::prelude::*;
use vstd::string::*;

verus! {

/// Splits `s` into lines, with `cur` the part of the current line read so far.
pub open spec fn split_from(s: Seq<char>, cur: Seq<char>) -> Seq<Seq<char>>
    decreases s.len(),
{
    if s.len() == 0 {
        if cur.len() == 0 {
            Seq::empty()
        } else {
            seq![cur]
        }
    } else if s[0] == '\n' {
        seq![cur] + split_from(s.drop_first(), Seq::empty())
    } else {
        split_from(s.drop_first(), cur.push(s[0]))
    }
}

/// The lines of `s`.
pub open spec fn split_lines(s: Seq<char>) -> Seq<Seq<char>> {
    split_from(s, Seq::empty())
}

/// Every line followed by a newline, in order.
pub open spec fn join_lines(lines: Seq<Seq<char>>) -> Seq<char>
    decreases lines.len(),
{
    if lines.len() == 0 {
        Seq::empty()
    } else {
        lines[0] + seq!['\n'] + join_lines(lines.drop_first())
    }
}

/// `line` holds no newline.
pub open spec fn single_line(line: Seq<char>) -> bool {
    forall|i: int| 0 <= i < line.len() ==> line[i] != '\n'
}

/// No element of `lines` holds a newline.
pub open spec fn all_single(lines: Seq<Seq<char>>) -> bool {
    forall|k: int| 0 <= k < lines.len() ==> single_line(#[trigger] lines[k])
}

/// The text that one save and load of `notes` leaves.
pub open spec fn normalized(notes: Seq<char>) -> Seq<char> {
    join_lines(split_lines(notes))
}

proof fn lemma_split_from_single(s: Seq<char>, cur: Seq<char>)
    requires
        single_line(cur),
    ensures
        all_single(split_from(s, cur)),
    decreases s.len(),
{
    if s.len() == 0 {
    } else if s[0] == '\n' {
        lemma_split_from_single(s.drop_first(), Seq::empty());
        let rest = split_from(s.drop_first(), Seq::empty());
        assert forall|k: int| 0 <= k < (seq![cur] + rest).len() implies single_line(
            #[trigger] (seq![cur] + rest)[k],
        ) by {
            if k > 0 {
                assert((seq![cur] + rest)[k] == rest[k - 1]);
            }
        }
    } else {
        let c2 = cur.push(s[0]);
        assert forall|i: int| 0 <= i < c2.len() implies c2[i] != '\n' by {
            if i < cur.len() {
                assert(c2[i] == cur[i]);
            }
        }
        lemma_split_from_single(s.drop_first(), c2);
    }
}

/// Every line that splitting yields is free of newlines.
pub proof fn lemma_lines_single(s: Seq<char>)
    ensures
        all_single(split_lines(s)),
{
    lemma_split_from_single(s, Seq::empty());
}

proof fn lemma_split_line_then_rest(line: Seq<char>, rest: Seq<char>, cur: Seq<char>)
    requires
        single_line(line),
    ensures
        split_from(line + seq!['\n'] + rest, cur) == seq![cur + line] + split_from(
            rest,
            Seq::empty(),
        ),
    decreases line.len(),
{
    let s = line + seq!['\n'] + rest;
    if line.len() == 0 {
        assert(s[0] == '\n');
        assert(s.drop_first() =~= rest);
        assert(cur + line =~= cur);
    } else {
        assert(s[0] == line[0]);
        assert(line[0] != '\n');
        let tail = line.drop_first();
        assert forall|i: int| 0 <= i < tail.len() implies tail[i] != '\n' by {
            assert(tail[i] == line[i + 1]);
        }
        assert(s.drop_first() =~= tail + seq!['\n'] + rest);
        lemma_split_line_then_rest(tail, rest, cur.push(line[0]));
        assert(cur.push(line[0]) + tail =~= cur + line);
    }
}

/// Splitting a joined list of newline-free lines gives the list back.
pub proof fn lemma_split_join(lines: Seq<Seq<char>>)
    requires
        all_single(lines),
    ensures
        split_lines(join_lines(lines)) == lines,
    decreases lines.len(),
{
    if lines.len() == 0 {
    } else {
        let rest = lines.drop_first();
        assert forall|k: int| 0 <= k < rest.len() implies single_line(#[trigger] rest[k]) by {
            assert(rest[k] == lines[k + 1]);
        }
        lemma_split_join(rest);
        assert(single_line(lines[0]));
        lemma_split_line_then_rest(lines[0], join_lines(rest), Seq::empty());
        assert(Seq::<char>::empty() + lines[0] =~= lines[0]);
        assert(seq![lines[0]] + rest =~= lines);
    }
}

/// Saving notes that were already loaded once gives the same lines again,
/// and loading them again gives the same text: the loaded form is a fixed point.
pub proof fn lemma_normalized_fixed_point(notes: Seq<char>)
    ensures
        split_lines(normalized(notes)) == split_lines(notes),
        normalized(normalized(notes)) == normalized(notes),
{
    lemma_lines_single(notes);
    lemma_split_join(split_lines(notes));
}

proof fn lemma_join_push(lines: Seq<Seq<char>>, line: Seq<char>)
    ensures
        join_lines(lines.push(line)) == join_lines(lines) + line + seq!['\n'],
    decreases lines.len(),
{
    if lines.len() == 0 {
        assert(lines.push(line).drop_first() =~= Seq::<Seq<char>>::empty());
        assert(lines.push(line)[0] == line);
        assert(join_lines(Seq::<Seq<char>>::empty()) == Seq::<char>::empty());
        assert(join_lines(lines.push(line)) =~= line + seq!['\n']);
        assert(join_lines(lines) + line + seq!['\n'] =~= line + seq!['\n']);
    } else {
        assert(lines.push(line).drop_first() =~= lines.drop_first().push(line));
        lemma_join_push(lines.drop_first(), line);
        assert(lines.push(line)[0] == lines[0]);
        assert(join_lines(lines.push(line)) =~= join_lines(lines) + line + seq!['\n']);
    }
}

proof fn lemma_split_from_no_newline(s: Seq<char>, cur: Seq<char>)
    requires
        single_line(s),
    ensures
        split_from(s, cur) == split_from(Seq::empty(), cur + s),
    decreases s.len(),
{
    if s.len() > 0 {
        assert(s[0] != '\n');
        let tail = s.drop_first();
        assert forall|i: int| 0 <= i < tail.len() implies tail[i] != '\n' by {
            assert(tail[i] == s[i + 1]);
        }
        lemma_split_from_no_newline(tail, cur.push(s[0]));
        assert(cur.push(s[0]) + tail =~= cur + s);
    } else {
        assert(cur + s =~= cur);
    }
}

/// The notes as a list of lines, one element per line.
pub fn serialize(data: &str) -> (r: Vec<String>)
    ensures
        r@.map_values(|l: String| l@) == split_lines(data@),
{
    let n = data.unicode_len();
    let mut lines: Vec<String> = Vec::new();
    let mut start: usize = 0;
    let mut i: usize = 0;
    assert(data@.skip(0) =~= data@);
    assert(data@.subrange(0, 0) =~= Seq::<char>::empty());
    assert(lines@.map_values(|l: String| l@) =~= Seq::<Seq<char>>::empty());
    while i < n
        invariant
            n == data@.len(),
            start <= i <= n,
            forall|j: int| start <= j < i ==> data@[j] != '\n',
            lines@.map_values(|l: String| l@) + split_from(
                data@.skip(i as int),
                data@.subrange(start as int, i as int),
            ) == split_lines(data@),
        decreases n - i,
    {
        let c = data.get_char(i);
        let ghost before = lines@.map_values(|l: String| l@);
        let ghost cur = data@.subrange(start as int, i as int);
        assert(data@.skip(i as int).drop_first() =~= data@.skip(i + 1));
        assert(data@.skip(i as int)[0] == c);
        if c == '\n' {
            let line = data.substring_char(start, i);
            let owned = line.to_string();
            lines.push(owned);
            assert(lines@.map_values(|l: String| l@) =~= before.push(cur));
            assert(data@.subrange((i + 1) as int, (i + 1) as int) =~= Seq::<char>::empty());
            assert(before.push(cur) + split_from(data@.skip(i + 1), Seq::empty()) =~= before + (
            seq![cur] + split_from(data@.skip(i + 1), Seq::empty())));
            start = i + 1;
        } else {
            assert(cur.push(c) =~= data@.subrange(start as int, i + 1));
        }
        i = i + 1;
    }
    let ghost cur = data@.subrange(start as int, n as int);
    assert(data@.skip(n as int) =~= Seq::<char>::empty());
    if start < n {
        let line = data.substring_char(start, n);
        lines.push(line.to_string());
        assert(lines@.map_values(|l: String| l@) =~= lines@.drop_last().map_values(
            |l: String| l@,
        ).push(cur));
    } else {
        assert(cur.len() == 0);
        assert(split_from(Seq::empty(), cur) =~= Seq::<Seq<char>>::empty());
        assert(lines@.map_values(|l: String| l@) + Seq::<Seq<char>>::empty() =~= lines@.map_values(
            |l: String| l@,
        ));
    }
    lines
}

/// The notes text from its stored lines: each line followed by a newline.
pub fn deserialize(lines: &Vec<String>) -> (r: String)
    ensures
        r@ == join_lines(lines@.map_values(|l: String| l@)),
{
    let mut buffer = String::new();
    let mut k: usize = 0;
    while k < lines.len()
        invariant
            k <= lines@.len(),
            buffer@ == join_lines(lines@.take(k as int).map_values(|l: String| l@)),
        decreases lines@.len() - k,
    {
        proof {
            reveal_strlit("\n");
            lemma_join_push(lines@.take(k as int).map_values(|l: String| l@), lines@[k as int]@);
            assert(lines@.take(k + 1).map_values(|l: String| l@) =~= lines@.take(
                k as int,
            ).map_values(|l: String| l@).push(lines@[k as int]@));
        }
        buffer.append(lines[k].as_str());
        buffer.append("\n");
        k = k + 1;
    }
    assert(lines@.take(lines@.len() as int) =~= lines@);
    buffer
}

} // verus!
