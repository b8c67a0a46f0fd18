//! What the application records: the lines of its outfile, and the count of its
//! zombie children.

use vstd::prelude::*;

use crate::echo_app::messages::{ResponseView, TestResponse};
use crate::error::joined;
use crate::text::{
    all_space, begins_with, chars_begin_with, chars_of, decimal, decimal_text, ends_with, is_digits,
    is_space, law_white_space_around_makes_no_difference, lemma_decimal_is_read_back,
    lemma_ends_of_a_sum, lemma_trimmed_start_of, lines, lines_of, lines_view, parse_unsigned,
    signed_decimal, signed_decimal_text, trim, trim_start, trimmed, trimmed_start, unsigned_value,
};

verus! {

/// One entry of the process file system.
#[derive(Debug)]
pub struct ProcEntry {
    /// The entry's name, where it is text.
    pub name: Option<String>,
    /// What its `status` file holds, where it can be read.
    pub status: Option<String>,
}

/// Whether a status line says that the process is a zombie, after the `State:`.
pub open spec fn is_zombie_state(rest: Seq<char>) -> bool {
    trimmed_start(rest).len() > 0 && trimmed_start(rest)[0] == 'Z'
}

/// What a `status` file says: whether the process is a zombie, and which parent
/// it has. The last line of each kind counts.
pub open spec fn status_of(lines: Seq<Seq<char>>) -> (bool, Option<nat>)
    decreases lines.len(),
{
    if lines.len() == 0 {
        (false, None)
    } else {
        let before = status_of(lines.drop_last());
        let line = lines.last();
        if begins_with(line, "State:"@) {
            (is_zombie_state(line.subrange(6, line.len() as int)), before.1)
        } else if begins_with(line, "PPid:"@) {
            (before.0, unsigned_value(trimmed(line.subrange(5, line.len() as int)), u32::MAX as nat))
        } else {
            before
        }
    }
}

/// Whether the entry is a process that is a zombie and a child of `me`.
pub open spec fn is_own_zombie(me: u32, entry: ProcEntry) -> bool {
    &&& entry.name matches Some(name) && is_digits(name@)
    &&& entry.status matches Some(status) && status_of(lines(status@)) == (true, Some(me as nat))
}

/// How many of the entries are zombie children of `me`.
pub open spec fn own_zombies(me: u32, entries: Seq<ProcEntry>) -> nat
    decreases entries.len(),
{
    if entries.len() == 0 {
        0
    } else {
        own_zombies(me, entries.drop_last()) + if is_own_zombie(me, entries.last()) {
            1nat
        } else {
            0nat
        }
    }
}

/// Whether the name of an entry is that of a process: one or more digits.
pub fn is_process_name(name: &str) -> (yes: bool)
    ensures
        yes == is_digits(name@),
{
    let chars = chars_of(name);
    if chars.len() == 0 {
        return false;
    }
    let mut i: usize = 0;
    while i < chars.len()
        invariant
            i <= chars@.len(),
            chars@ == name@,
            forall|j: int| 0 <= j < i ==> crate::text::is_digit(#[trigger] name@[j]),
        decreases chars.len() - i,
    {
        let c = chars[i];
        if !('0' <= c && c <= '9') {
            assert(!crate::text::is_digit(name@[i as int]));
            return false;
        }
        i += 1;
    }
    true
}

/// What a `status` file says: whether the process is a zombie, and which parent
/// it has.
fn read_status(status: &str) -> (found: (bool, Option<u32>))
    ensures
        found.0 == status_of(lines(status@)).0,
        match found.1 {
            Some(ppid) => status_of(lines(status@)).1 == Some(ppid as nat),
            None => status_of(lines(status@)).1 is None,
        },
{
    let chars = chars_of(status);
    let all = lines_of(chars.as_slice());
    let mut is_zombie = false;
    let mut ppid: Option<u32> = None;
    let mut i: usize = 0;
    let ghost views = lines_view(all@);
    while i < all.len()
        invariant
            i <= all@.len(),
            views == lines_view(all@),
            is_zombie == status_of(views.take(i as int)).0,
            match ppid {
                Some(ppid) => status_of(views.take(i as int)).1 == Some(ppid as nat),
                None => status_of(views.take(i as int)).1 is None,
            },
        decreases all.len() - i,
    {
        let line = all[i].as_slice();
        proof {
            assert(views.take(i + 1).drop_last() =~= views.take(i as int));
            assert(views.take(i + 1).last() == line@);
            reveal_strlit("State:");
            reveal_strlit("PPid:");
        }
        if chars_begin_with(line, "State:") {
            let state = trim_start(vstd::slice::slice_subrange(line, 6, line.len()));
            is_zombie = state.len() > 0 && state[0] == 'Z';
        } else if chars_begin_with(line, "PPid:") {
            let number = trim(vstd::slice::slice_subrange(line, 5, line.len()));
            ppid = match parse_unsigned(number, u32::MAX as u64) {
                Some(n) => Some(n as u32),
                None => None,
            };
        }
        i += 1;
    }
    assert(views.take(views.len() as int) =~= views);
    (is_zombie, ppid)
}

/// Count the zombie children of `me` among the entries.
pub fn count_own_zombie_children(me: u32, entries: &Vec<ProcEntry>) -> (count: usize)
    ensures
        count == own_zombies(me, entries@),
{
    let mut count: usize = 0;
    let mut i: usize = 0;
    while i < entries.len()
        invariant
            i <= entries@.len(),
            count <= i,
            count == own_zombies(me, entries@.take(i as int)),
        decreases entries.len() - i,
    {
        proof {
            assert(entries@.take(i + 1).drop_last() =~= entries@.take(i as int));
        }
        let is_process = match &entries[i].name {
            Some(name) => is_process_name(name.as_str()),
            None => false,
        };
        let is_own = match &entries[i].status {
            Some(status) => {
                let (is_zombie, ppid) = read_status(status.as_str());
                match ppid {
                    Some(ppid) => is_zombie && ppid == me,
                    None => false,
                }
            },
            None => false,
        };
        if is_process && is_own {
            count += 1;
        }
        i += 1;
    }
    assert(entries@.take(entries@.len() as int) =~= entries@);
    count
}

/// The record of one exchange with one daemon.
pub open spec fn parent_record(r: ResponseView, zombies: nat) -> Seq<char> {
    "parent-got:"@ + signed_decimal(r.v as int) + " cwd:"@ + r.daemon_cwd + " marker:"@ + r.marker
        + " argv1:"@ + r.argv1 + " sid:"@ + signed_decimal(r.sid as int) + " pid:"@ + decimal(
        r.pid as nat,
    ) + " zombies:"@ + decimal(zombies)
}

/// The record of one exchange with one daemon.
pub fn parent_report(response: &TestResponse, zombies: usize) -> (text: String)
    ensures
        text@ == parent_record(response@, zombies as nat),
{
    let mut text = joined("parent-got:", signed_decimal_text(response.v as i64).as_str());
    text.append(" cwd:");
    text.append(response.daemon_cwd.as_str());
    text.append(" marker:");
    text.append(response.marker.as_str());
    text.append(" argv1:");
    text.append(response.argv1.as_str());
    text.append(" sid:");
    text.append(signed_decimal_text(response.sid as i64).as_str());
    text.append(" pid:");
    text.append(decimal_text(response.pid as u64).as_str());
    text.append(" zombies:");
    text.append(decimal_text(zombies as u64).as_str());
    text
}

/// The line about daemon `idx` of many.
pub open spec fn daemon_line(idx: usize, r: ResponseView) -> Seq<char> {
    "idx:"@ + decimal(idx as nat) + " got:"@ + signed_decimal(r.v as int) + " pid:"@ + decimal(
        r.pid as nat,
    ) + " sid:"@ + signed_decimal(r.sid as int) + " cwd:"@ + r.daemon_cwd + " marker:"@ + r.marker
        + "\n"@
}

/// The lines about many daemons.
pub open spec fn daemon_lines(results: Seq<(usize, TestResponse)>) -> Seq<char>
    decreases results.len(),
{
    if results.len() == 0 {
        Seq::empty()
    } else {
        daemon_lines(results.drop_last()) + daemon_line(results.last().0, results.last().1@)
    }
}

/// The record of many daemons: a line for each, and the count of zombies.
pub fn many_report(results: &Vec<(usize, TestResponse)>, zombies: usize) -> (text: String)
    ensures
        text@ == daemon_lines(results@) + "zombies:"@ + decimal(zombies as nat) + "\n"@,
{
    let mut text = String::new();
    let mut i: usize = 0;
    while i < results.len()
        invariant
            i <= results@.len(),
            text@ == daemon_lines(results@.take(i as int)),
        decreases results.len() - i,
    {
        proof {
            assert(results@.take(i + 1).drop_last() =~= results@.take(i as int));
        }
        let ghost before = text@;
        let idx: usize = results[i].0;
        let response = &results[i].1;
        let mut line = joined("idx:", decimal_text(idx as u64).as_str());
        line.append(" got:");
        line.append(signed_decimal_text(response.v as i64).as_str());
        line.append(" pid:");
        line.append(decimal_text(response.pid as u64).as_str());
        line.append(" sid:");
        line.append(signed_decimal_text(response.sid as i64).as_str());
        line.append(" cwd:");
        line.append(response.daemon_cwd.as_str());
        line.append(" marker:");
        line.append(response.marker.as_str());
        line.append("\n");
        text.append(line.as_str());
        assert(text@ == before + daemon_line(idx, response@));
        i += 1;
    }
    assert(results@.take(results@.len() as int) =~= results@);
    text.append("zombies:");
    text.append(decimal_text(zombies as u64).as_str());
    text.append("\n");
    text
}

/// The line about one of two daemons, from its two answers.
pub open spec fn pair_line(tag: Seq<char>, first: ResponseView, second: ResponseView) -> Seq<char> {
    "tag:"@ + tag + " got1:"@ + signed_decimal(first.v as int) + " got2:"@ + signed_decimal(
        second.v as int,
    ) + " pid1:"@ + decimal(first.pid as nat) + " pid2:"@ + decimal(second.pid as nat) + " sid:"@
        + signed_decimal(first.sid as int) + "\n"@
}

fn pair_text(tag: &str, first: &TestResponse, second: &TestResponse) -> (text: String)
    ensures
        text@ == pair_line(tag@, first@, second@),
{
    let mut text = joined("tag:", tag);
    text.append(" got1:");
    text.append(signed_decimal_text(first.v as i64).as_str());
    text.append(" got2:");
    text.append(signed_decimal_text(second.v as i64).as_str());
    text.append(" pid1:");
    text.append(decimal_text(first.pid as u64).as_str());
    text.append(" pid2:");
    text.append(decimal_text(second.pid as u64).as_str());
    text.append(" sid:");
    text.append(signed_decimal_text(first.sid as i64).as_str());
    text.append("\n");
    text
}

/// The record of two daemons with two rounds each.
pub open spec fn interleaved_record(
    a1: ResponseView,
    a2: ResponseView,
    b1: ResponseView,
    b2: ResponseView,
    zombies: nat,
) -> Seq<char> {
    pair_line("A"@, a1, a2) + pair_line("B"@, b1, b2) + "zombies:"@ + decimal(zombies) + "\n"@
}

/// The record of two daemons with two rounds each.
pub fn interleaved_report(
    a1: &TestResponse,
    a2: &TestResponse,
    b1: &TestResponse,
    b2: &TestResponse,
    zombies: usize,
) -> (text: String)
    ensures
        text@ == interleaved_record(a1@, a2@, b1@, b2@, zombies as nat),
{
    let mut text = pair_text("A", a1, a2);
    text.append(pair_text("B", b1, b2).as_str());
    text.append("zombies:");
    text.append(decimal_text(zombies as u64).as_str());
    text.append("\n");
    text
}

/// What a status file says of a process is what its last line of each kind says:
/// a state that begins with a Z is that of a zombie and no other is, the parent
/// is the number behind its label, with white space around it or without, and no
/// other line matters.
pub proof fn law_last_line_of_each_kind_counts(
    lines: Seq<Seq<char>>,
    line: Seq<char>,
    before: Seq<char>,
    state: Seq<char>,
    ppid: u32,
    after: Seq<char>,
)
    requires
        all_space(before),
        all_space(after),
        state.len() > 0,
        !is_space(state[0]),
    ensures
        status_of(Seq::<Seq<char>>::empty()) == (false, None::<nat>),
        !begins_with(line, "State:"@) && !begins_with(line, "PPid:"@) ==> status_of(lines.push(line))
            == status_of(lines),
        line == "State:"@ + (before + state) ==> status_of(lines.push(line)) == (
            state[0] == 'Z',
            status_of(lines).1,
        ),
        line == "PPid:"@ + (before + decimal(ppid as nat) + after) ==> status_of(lines.push(line)) == (
            status_of(lines).0,
            Some(ppid as nat),
        ),
        line == "State:"@ ==> !status_of(lines.push(line)).0,
        line == "PPid:"@ ==> status_of(lines.push(line)).1 is None,
        line == "PPid:"@ + state && !is_space(state.last()) && state[0] != '+' && !('0' <= state[0]
            <= '9') ==> status_of(lines.push(line)) == (status_of(lines).0, None::<nat>),
{
    reveal_strlit("State:");
    reveal_strlit("PPid:");
    let longer = lines.push(line);
    assert(longer.drop_last() =~= lines);
    assert(longer.last() == line);
    if line == "State:"@ + (before + state) {
        lemma_ends_of_a_sum("State:"@, before + state);
        assert(line.subrange(6, line.len() as int) =~= before + state);
        lemma_trimmed_start_of(before, state);
    }
    if line == "State:"@ {
        assert(line.subrange(0, 6) =~= "State:"@);
        assert(line.subrange(6, 6) =~= Seq::<char>::empty());
    }
    if line == "PPid:"@ || line == "PPid:"@ + state {
        assert(line[0] == 'P');
        if begins_with(line, "State:"@) {
            assert(line.subrange(0, 6)[0] == 'S');
            assert(line.subrange(0, 6)[0] == line[0]);
        }
        assert(line.subrange(0, 5) =~= "PPid:"@);
    }
    if line == "PPid:"@ {
        assert(line.subrange(5, 5) =~= Seq::<char>::empty());
    }
    if line == "PPid:"@ + state && !is_space(state.last()) && state[0] != '+' && !('0' <= state[0]
        <= '9') {
        assert(line.subrange(5, line.len() as int) =~= state);
        assert(!crate::text::is_digit(state[0]));
    }
    if line == "PPid:"@ + (before + decimal(ppid as nat) + after) {
        let value = before + decimal(ppid as nat) + after;
        lemma_ends_of_a_sum("PPid:"@, value);
        assert(line[0] == 'P');
        if begins_with(line, "State:"@) {
            assert(line.subrange(0, 6)[0] == 'S');
            assert(line.subrange(0, 6)[0] == line[0]);
        }
        assert(line.subrange(5, line.len() as int) =~= value);
        lemma_decimal_is_read_back(ppid as nat, u32::MAX as nat);
        let digits = decimal(ppid as nat);
        assert(crate::text::is_digit(digits[0]));
        assert(crate::text::is_digit(digits[digits.len() - 1]));
        law_white_space_around_makes_no_difference(before, digits, after);
    }
}

/// Zombies are counted entry by entry: those of two lists are those of the one
/// and those of the other, and an entry counts as one or not at all. It counts
/// exactly where its name is a number and its status says that it is a zombie
/// and a child of ours.
pub proof fn law_zombies_are_counted_entry_by_entry(
    me: u32,
    a: Seq<ProcEntry>,
    b: Seq<ProcEntry>,
    entry: ProcEntry,
)
    ensures
        own_zombies(me, a + b) == own_zombies(me, a) + own_zombies(me, b),
        own_zombies(me, a) <= a.len(),
        own_zombies(me, seq![entry]) == 1 || own_zombies(me, seq![entry]) == 0,
        own_zombies(me, seq![entry]) == 1 <==> {
            &&& entry.name matches Some(name) && name@.len() > 0 && forall|i: int|
                0 <= i < name@.len() ==> '0' <= #[trigger] name@[i] <= '9'
            &&& entry.status matches Some(status) && status_of(lines(status@)).0 && status_of(
                lines(status@),
            ).1 == Some(me as nat)
        },
    decreases b.len(),
{
    let one = seq![entry];
    assert(one.drop_last() =~= Seq::<ProcEntry>::empty());
    assert(own_zombies(me, one.drop_last()) == 0);
    assert(one.last() == entry);
    if let Some(name) = entry.name {
        assert(forall|i: int| 0 <= i < name@.len() ==> crate::text::is_digit(#[trigger] name@[i]) == (
        '0' <= name@[i] <= '9'));
    }
    if b.len() == 0 {
        assert(a + b =~= a);
    } else {
        assert((a + b).drop_last() =~= a + b.drop_last());
        assert((a + b).last() == b.last());
        law_zombies_are_counted_entry_by_entry(me, a, b.drop_last(), entry);
    }
    lemma_count_is_bounded(me, a);
}

proof fn lemma_count_is_bounded(me: u32, a: Seq<ProcEntry>)
    ensures
        own_zombies(me, a) <= a.len(),
    decreases a.len(),
{
    if a.len() > 0 {
        lemma_count_is_bounded(me, a.drop_last());
    }
}

/// What is counted is the zombies among the entries, and no entry that is not
/// named like a process.
pub proof fn law_only_processes_are_counted(
    me: u32,
    entries: &Vec<ProcEntry>,
    count: usize,
    pid: u64,
    name: &str,
    yes: bool,
)
    requires
        call_ensures(count_own_zombie_children, (me, entries), count),
        call_ensures(is_process_name, (name,), yes),
    ensures
        count == own_zombies(me, entries@),
        (forall|i: int| 0 <= i < entries@.len() ==> (#[trigger] entries@[i]).name is None) ==> count
            == 0,
        name@ == decimal(pid as nat) ==> yes,
        name@.len() == 0 ==> !yes,
        yes ==> forall|i: int| 0 <= i < name@.len() ==> '0' <= #[trigger] name@[i] <= '9',
{
    lemma_decimal_is_read_back(pid as nat, u64::MAX as nat);
    if forall|i: int| 0 <= i < entries@.len() ==> (#[trigger] entries@[i]).name is None {
        lemma_nameless_entries_do_not_count(me, entries@);
    }
    if yes {
        assert forall|i: int| 0 <= i < name@.len() implies '0' <= #[trigger] name@[i] <= '9' by {
            assert(crate::text::is_digit(name@[i]));
        }
    }
}

proof fn lemma_nameless_entries_do_not_count(me: u32, entries: Seq<ProcEntry>)
    requires
        forall|i: int| 0 <= i < entries.len() ==> (#[trigger] entries[i]).name is None,
    ensures
        own_zombies(me, entries) == 0,
    decreases entries.len(),
{
    if entries.len() > 0 {
        let earlier = entries.drop_last();
        assert forall|i: int| 0 <= i < earlier.len() implies (#[trigger] earlier[i]).name is None by {
            assert(earlier[i] == entries[i]);
        }
        assert(entries.last() == entries[entries.len() - 1]);
        lemma_nameless_entries_do_not_count(me, earlier);
    }
}

/// A record says all that came in: it begins with the number and the texts of the
/// answer, and ends with its ids and the count of zombies.
pub proof fn law_record_says_all_that_came_in(
    response: &TestResponse,
    zombies: usize,
    text: String,
)
    requires
        call_ensures(parent_report, (response, zombies), text),
    ensures
        begins_with(
            text@,
            "parent-got:"@ + signed_decimal(response.v as int) + " cwd:"@ + response.daemon_cwd@
                + " marker:"@ + response.marker@ + " argv1:"@ + response.argv1@ + " sid:"@,
        ),
        ends_with(
            text@,
            " sid:"@ + (signed_decimal(response.sid as int) + (" pid:"@ + (decimal(
                response.pid as nat,
            ) + (" zombies:"@ + decimal(zombies as nat))))),
        ),
{
    let head = "parent-got:"@ + signed_decimal(response.v as int) + " cwd:"@ + response.daemon_cwd@
        + " marker:"@ + response.marker@ + " argv1:"@ + response.argv1@;
    let tail = " sid:"@ + (signed_decimal(response.sid as int) + (" pid:"@ + (decimal(
        response.pid as nat,
    ) + (" zombies:"@ + decimal(zombies as nat)))));
    assert(text@ =~= head + tail);
    lemma_ends_of_a_sum(head, tail);
    let rest = signed_decimal(response.sid as int) + (" pid:"@ + (decimal(response.pid as nat) + (
    " zombies:"@ + decimal(zombies as nat))));
    assert(text@ =~= (head + " sid:"@) + rest);
    lemma_ends_of_a_sum(head + " sid:"@, rest);
}

/// The record of many daemons has the lines of the one half of them and then
/// those of the other, wherever they are parted; each line says which daemon it
/// is about and what that daemon answered, and the count of zombies comes last.
pub proof fn law_many_record_is_line_by_line(
    a: Seq<(usize, TestResponse)>,
    b: Seq<(usize, TestResponse)>,
    idx: usize,
    response: TestResponse,
)
    ensures
        daemon_lines(a + b) == daemon_lines(a) + daemon_lines(b),
        daemon_lines(seq![(idx, response)]) == daemon_line(idx, response@),
        begins_with(
            daemon_line(idx, response@),
            "idx:"@ + decimal(idx as nat) + " got:"@ + signed_decimal(response.v as int) + " pid:"@
                + decimal(response.pid as nat) + " sid:"@,
        ),
        ends_with(
            daemon_line(idx, response@),
            " sid:"@ + (signed_decimal(response.sid as int) + (" cwd:"@ + (response.daemon_cwd@ + (
            " marker:"@ + (response.marker@ + "\n"@))))),
        ),
    decreases b.len(),
{
    let one = seq![(idx, response)];
    assert(one.drop_last() =~= Seq::<(usize, TestResponse)>::empty());
    assert(daemon_lines(one.drop_last()) =~= Seq::<char>::empty());
    assert(one.last() == (idx, response));
    assert(daemon_lines(one) =~= daemon_line(idx, response@));
    let head = "idx:"@ + decimal(idx as nat) + " got:"@ + signed_decimal(response.v as int)
        + " pid:"@ + decimal(response.pid as nat);
    let rest = signed_decimal(response.sid as int) + (" cwd:"@ + (response.daemon_cwd@ + (
    " marker:"@ + (response.marker@ + "\n"@))));
    assert(daemon_line(idx, response@) =~= (head + " sid:"@) + rest);
    assert(daemon_line(idx, response@) =~= head + (" sid:"@ + rest));
    lemma_ends_of_a_sum(head + " sid:"@, rest);
    lemma_ends_of_a_sum(head, " sid:"@ + rest);
    if b.len() == 0 {
        assert(a + b =~= a);
        assert(daemon_lines(a) + daemon_lines(b) =~= daemon_lines(a));
    } else {
        assert((a + b).drop_last() =~= a + b.drop_last());
        assert((a + b).last() == b.last());
        law_many_record_is_line_by_line(a, b.drop_last(), idx, response);
        assert(daemon_lines(a + b) =~= daemon_lines(a) + daemon_lines(b));
    }
}

/// The record of many daemons is their lines and then the count of zombies.
pub proof fn law_many_record_ends_with_the_zombies(
    results: &Vec<(usize, TestResponse)>,
    zombies: usize,
    text: String,
)
    requires
        call_ensures(many_report, (results, zombies), text),
    ensures
        begins_with(text@, daemon_lines(results@)),
        ends_with(text@, "zombies:"@ + (decimal(zombies as nat) + "\n"@)),
        results@.len() == 0 ==> text@ == "zombies:"@ + decimal(zombies as nat) + "\n"@,
{
    let tail = "zombies:"@ + (decimal(zombies as nat) + "\n"@);
    assert(text@ =~= daemon_lines(results@) + tail);
    lemma_ends_of_a_sum(daemon_lines(results@), tail);
    if results@.len() == 0 {
        assert(text@ =~= "zombies:"@ + decimal(zombies as nat) + "\n"@);
    }
}

/// The record of two daemons begins with the two answers of the first and ends
/// with those of the second and the count of zombies: no answer is under the
/// wrong name.
pub proof fn law_pair_record_keeps_the_daemons_apart(
    a1: &TestResponse,
    a2: &TestResponse,
    b1: &TestResponse,
    b2: &TestResponse,
    zombies: usize,
    text: String,
)
    requires
        call_ensures(interleaved_report, (a1, a2, b1, b2, zombies), text),
    ensures
        begins_with(
            text@,
            "tag:"@ + "A"@ + " got1:"@ + signed_decimal(a1.v as int) + " got2:"@ + signed_decimal(
                a2.v as int,
            ) + " pid1:"@ + decimal(a1.pid as nat) + " pid2:"@ + decimal(a2.pid as nat) + " sid:"@
                + signed_decimal(a1.sid as int) + "\n"@,
        ),
        ends_with(
            text@,
            "tag:"@ + "B"@ + " got1:"@ + signed_decimal(b1.v as int) + " got2:"@ + signed_decimal(
                b2.v as int,
            ) + " pid1:"@ + decimal(b1.pid as nat) + " pid2:"@ + decimal(b2.pid as nat) + " sid:"@
                + signed_decimal(b1.sid as int) + "\n"@ + "zombies:"@ + decimal(zombies as nat)
                + "\n"@,
        ),
{
    let first = pair_line("A"@, a1@, a2@);
    let rest = pair_line("B"@, b1@, b2@) + "zombies:"@ + decimal(zombies as nat) + "\n"@;
    assert(text@ =~= first + rest);
    lemma_ends_of_a_sum(first, rest);
}

} // verus!
