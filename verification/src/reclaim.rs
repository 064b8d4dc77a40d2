//! Port reclamation: which processes a `netstat -ano` listing shows as
//! listeners on a port, so that they can be terminated.
//!
//! A line of the listing holds, in words set apart by blanks: the protocol, the
//! local address, the foreign address, the state, and the process id.

use vstd::prelude::*;
use vstd::slice::slice_subrange;
use crate::text::{
    blank_char, chars_of, decimal, digit_value, ends_with, ends_with_text, is_blank_char,
    lemma_decimal_writes_number, parse_number, parse_unsigned, push_decimal, same_chars,
};

verus! {

/// Length of the first line of `text`: the characters before its first newline.
pub open spec fn line_len(text: Seq<char>) -> nat
    decreases text.len(),
{
    if text.len() == 0 || text[0] == '\n' {
        0
    } else {
        1 + line_len(text.drop_first())
    }
}

/// The first line of `text`, without its newline.
pub open spec fn first_line(text: Seq<char>) -> Seq<char> {
    text.take(line_len(text) as int)
}

/// What follows the first line of `text` and its newline.
pub open spec fn after_first_line(text: Seq<char>) -> Seq<char> {
    if line_len(text) < text.len() {
        text.skip(line_len(text) as int + 1)
    } else {
        Seq::empty()
    }
}

/// Where the last word before `upto` ends: after the last character before
/// `upto` that is not blank, or at 0 if there is none.
pub open spec fn word_end(line: Seq<char>, upto: nat) -> nat
    decreases upto,
{
    if upto == 0 || upto > line.len() {
        0
    } else if is_blank_char(line[upto - 1]) {
        word_end(line, (upto - 1) as nat)
    } else {
        upto
    }
}

/// Where the word that ends just before `end` starts: after the nearest blank
/// character before `end`, or at the start of the line.
pub open spec fn word_start(line: Seq<char>, end: nat) -> nat
    decreases end,
{
    if end == 0 || end > line.len() || is_blank_char(line[end - 1]) {
        end
    } else {
        word_start(line, (end - 1) as nat)
    }
}

/// The words of `line` that lie before `upto`, in order: the runs of
/// characters that are not blank.
pub open spec fn words_before(line: Seq<char>, upto: nat) -> Seq<Seq<char>>
    decreases upto,
{
    let end = word_end(line, upto);
    let start = word_start(line, end);
    if start < end <= upto {
        words_before(line, start).push(line.subrange(start as int, end as int))
    } else {
        Seq::empty()
    }
}

/// The words of `line`, in order.
pub open spec fn words(line: Seq<char>) -> Seq<Seq<char>> {
    words_before(line, line.len())
}

/// How a listing writes the port at the end of an address: a colon and the number.
pub open spec fn port_mark(port: u16) -> Seq<char> {
    seq![':'] + decimal(port as nat)
}

/// The line shows a listener on `port`: its local address, the second word,
/// ends with the port, and its state, the fourth word, is `LISTENING`. The
/// foreign address does not count.
pub open spec fn names_listener(line: Seq<char>, port: u16) -> bool {
    let w = words(line);
    &&& w.len() >= 4
    &&& ends_with_text(w[1], port_mark(port))
    &&& w[3] == "LISTENING"@
}

/// The process that `line` shows as a listener on `port`: the line shows a
/// listener on the port, and its last word is a process id other than 0.
pub open spec fn listener_pid(line: Seq<char>, port: u16) -> Option<u32> {
    if names_listener(line, port) {
        match parse_unsigned(words(line).last(), u32::MAX as nat) {
            Some(pid) => if pid != 0 {
                Some(pid as u32)
            } else {
                None
            },
            None => None,
        }
    } else {
        None
    }
}

/// The processes that the lines of `text` show as listeners on `port`, in the
/// order of the lines. A process is listed as often as lines show it.
pub open spec fn listeners_in(text: Seq<char>, port: u16) -> Seq<u32>
    decreases text.len(),
{
    if text.len() == 0 {
        Seq::empty()
    } else {
        let here = match listener_pid(first_line(text), port) {
            Some(pid) => seq![pid],
            None => Seq::empty(),
        };
        here + listeners_in(after_first_line(text), port)
    }
}

/// The parts of `line` that `bounds` marks, the last of them first.
pub open spec fn marked_last_first(line: Seq<char>, bounds: Seq<(usize, usize)>) -> Seq<Seq<char>> {
    Seq::new(
        bounds.len(),
        |i: int| line.subrange(bounds[bounds.len() - 1 - i].0 as int, bounds[bounds.len() - 1 - i].1 as int),
    )
}

/// A run of `n` characters without a newline, at the end of the text or before a
/// newline, is the first line.
pub proof fn lemma_line_len(text: Seq<char>, n: nat)
    requires
        n <= text.len(),
        forall|k: int| 0 <= k < n ==> text[k] != '\n',
        n == text.len() || text[n as int] == '\n',
    ensures
        line_len(text) == n,
    decreases n,
{
    if n > 0 {
        lemma_line_len(text.drop_first(), (n - 1) as nat);
    }
}

/// A line shows a listener on one port at most: the port that its local
/// address ends with. A listener on 8080 is none on 80.
pub proof fn lemma_line_names_one_port(line: Seq<char>, p: u16, q: u16)
    requires
        names_listener(line, p),
        names_listener(line, q),
    ensures
        p == q,
{
    let address = words(line)[1];
    lemma_decimal_writes_number(p as nat);
    lemma_decimal_writes_number(q as nat);
    let mp = port_mark(p);
    let mq = port_mark(q);
    let at_p = address.len() - mp.len();
    let at_q = address.len() - mq.len();
    assert(address.subrange(at_p, address.len() as int)[0] == mp[0]);
    assert(address.subrange(at_q, address.len() as int)[0] == mq[0]);
    if mp.len() < mq.len() {
        let k = mq.len() - mp.len();
        assert(address.subrange(at_q, address.len() as int)[k] == mq[k]);
        assert(mq[k] == decimal(q as nat)[k - 1]);
        assert(digit_value(decimal(q as nat)[k - 1]) is Some);
    } else if mq.len() < mp.len() {
        let k = mp.len() - mq.len();
        assert(address.subrange(at_p, address.len() as int)[k] == mp[k]);
        assert(mp[k] == decimal(p as nat)[k - 1]);
        assert(digit_value(decimal(p as nat)[k - 1]) is Some);
    } else {
        assert(mp == mq);
        assert(decimal(p as nat) =~= mp.drop_first());
        assert(decimal(q as nat) =~= mq.drop_first());
    }
}

/// Where the words of `line` start and end, the last word first.
pub fn word_bounds(line: &[char]) -> (bounds: Vec<(usize, usize)>)
    ensures
        words(line@) == marked_last_first(line@, bounds@),
        forall|i: int|
            0 <= i < bounds.len() ==> (#[trigger] bounds[i]).0 <= bounds[i].1 <= line.len(),
{
    let mut bounds: Vec<(usize, usize)> = Vec::new();
    let mut upto: usize = line.len();
    assert(words(line@) =~= words_before(line@, upto as nat) + marked_last_first(line@, bounds@));
    loop
        invariant
            upto <= line.len(),
            words(line@) == words_before(line@, upto as nat) + marked_last_first(line@, bounds@),
            forall|i: int|
                0 <= i < bounds.len() ==> (#[trigger] bounds[i]).0 <= bounds[i].1 <= line.len(),
        ensures
            words(line@) == marked_last_first(line@, bounds@),
            forall|i: int|
                0 <= i < bounds.len() ==> (#[trigger] bounds[i]).0 <= bounds[i].1 <= line.len(),
        decreases upto,
    {
        let mut end: usize = upto;
        while end > 0 && blank_char(line[end - 1])
            invariant
                end <= upto <= line.len(),
                word_end(line@, upto as nat) == word_end(line@, end as nat),
            decreases end,
        {
            end = end - 1;
        }
        let mut start: usize = end;
        while start > 0 && !blank_char(line[start - 1])
            invariant
                start <= end <= line.len(),
                word_start(line@, end as nat) == word_start(line@, start as nat),
            decreases start,
        {
            start = start - 1;
        }
        if start == end {
            assert(words_before(line@, upto as nat) =~= Seq::<Seq<char>>::empty());
            assert(words(line@) =~= marked_last_first(line@, bounds@));
            break;
        }
        let ghost before = bounds@;
        bounds.push((start, end));
        assert(words_before(line@, start as nat) + marked_last_first(line@, bounds@)
            =~= words_before(line@, upto as nat) + marked_last_first(line@, before));
        upto = start;
    }
    bounds
}

/// The process id at the end of `line`, if the line shows a listener on the port
/// that `mark` stands for.
fn pid_of_line(line: &[char], mark: &[char], listening: &[char], Ghost(port): Ghost<u16>) -> (pid:
    Option<u32>)
    requires
        mark@ == port_mark(port),
        listening@ == "LISTENING"@,
    ensures
        pid == listener_pid(line@, port),
{
    let bounds = word_bounds(line);
    let n = bounds.len();
    if n < 4 {
        return None;
    }
    let ghost w = words(line@);
    assert(w.len() == n);
    let local = slice_subrange(line, bounds[n - 2].0, bounds[n - 2].1);
    let state = slice_subrange(line, bounds[n - 4].0, bounds[n - 4].1);
    let last = slice_subrange(line, bounds[0].0, bounds[0].1);
    assert(local@ == w[1]);
    assert(state@ == w[3]);
    assert(last@ == w.last());
    if !ends_with(local, mark) || !same_chars(state, listening) {
        return None;
    }
    match parse_number(last, u32::MAX) {
        Some(pid) => if pid != 0 {
            Some(pid)
        } else {
            None
        },
        None => None,
    }
}

/// Reads the output of `netstat -ano` and returns the ids of the processes that
/// it shows listening on `port`, line by line. A line counts when its local
/// address ends with a colon and the port, its state is `LISTENING`, and its
/// last word is a process id other than 0.
pub fn listening_pids_on_port(netstat_output: &str, port: u16) -> (pids: Vec<u32>)
    ensures
        pids@ == listeners_in(netstat_output@, port),
{
    let text = chars_of(netstat_output);
    let listening = chars_of("LISTENING");
    let mut mark: Vec<char> = Vec::new();
    mark.push(':');
    push_decimal(&mut mark, port as u32);
    assert(mark@ == port_mark(port));
    let mut pids: Vec<u32> = Vec::new();
    let mut pos: usize = 0;
    assert(text@.skip(0) == text@);
    assert(pids@ + listeners_in(text@, port) == listeners_in(text@, port));
    while pos < text.len()
        invariant
            pos <= text.len(),
            text@ == netstat_output@,
            mark@ == port_mark(port),
            listening@ == "LISTENING"@,
            pids@ + listeners_in(text@.skip(pos as int), port) == listeners_in(text@, port),
        decreases text.len() - pos,
    {
        let mut end: usize = pos;
        while end < text.len() && text[end] != '\n'
            invariant
                pos <= end <= text.len(),
                forall|k: int| pos <= k < end ==> text@[k] != '\n',
            decreases text.len() - end,
        {
            end = end + 1;
        }
        let ghost rest = text@.skip(pos as int);
        proof {
            lemma_line_len(rest, (end - pos) as nat);
            assert(first_line(rest) == text@.subrange(pos as int, end as int));
        }
        let line = slice_subrange(text.as_slice(), pos, end);
        let ghost before = pids@;
        match pid_of_line(line, mark.as_slice(), listening.as_slice(), Ghost(port)) {
            Some(pid) => {
                pids.push(pid);
                assert(pids@ == before + seq![pid]);
            },
            None => {
                assert(pids@ == before + Seq::<u32>::empty());
            },
        }
        let next: usize = if end < text.len() {
            end + 1
        } else {
            end
        };
        proof {
            assert(after_first_line(rest) == text@.skip(next as int));
            assert(pids@ + listeners_in(text@.skip(next as int), port) == before + listeners_in(
                rest,
                port,
            ));
        }
        pos = next;
    }
    assert(text@.skip(text.len() as int) == Seq::<char>::empty());
    assert(pids@ + Seq::<u32>::empty() == pids@);
    pids
}

} // verus!
