use vstd::prelude::*;

use crate::chains::{earliest, lemma_earliest, CEC, FEC};
use crate::models::Transaction;

verus! {

/// The decimal digit for `d` (0 to 9).
pub open spec fn digit_char(d: int) -> char {
    (d + 48) as char
}

/// The decimal numeral of `n`, without leading zeros.
pub open spec fn decimal(n: nat) -> Seq<char>
    decreases n,
{
    if n < 10 {
        seq![digit_char(n as int)]
    } else {
        decimal(n / 10).push(digit_char((n % 10) as int))
    }
}

/// The decimal numeral of `i`, with a minus sign when negative.
pub open spec fn int_text(i: int) -> Seq<char> {
    if i < 0 {
        seq!['-'] + decimal((-i) as nat)
    } else {
        decimal(i as nat)
    }
}

/// A tick count shown in model time units with one decimal: the whole units,
/// a point and the tenths, with a minus sign when negative.
pub open spec fn time_text(ticks: int) -> Seq<char> {
    let m = if ticks < 0 { -ticks } else { ticks };
    let body = decimal((m / 10) as nat).push('.').push(digit_char(m % 10));
    if ticks < 0 {
        seq!['-'] + body
    } else {
        body
    }
}

/// `s` padded with spaces on the right to at least `width` characters.
pub open spec fn padded(s: Seq<char>, width: nat) -> Seq<char> {
    if s.len() >= width {
        s
    } else {
        s + Seq::new((width - s.len()) as nat, |i: int| ' ')
    }
}

/// The elements of `list` joined with `sep` between neighbours.
pub open spec fn joined(list: Seq<Seq<char>>, sep: Seq<char>) -> Seq<char>
    decreases list.len(),
{
    if list.len() == 0 {
        Seq::empty()
    } else if list.len() == 1 {
        list[0]
    } else {
        joined(list.drop_last(), sep) + sep + list.last()
    }
}

/// A quoted list: the items joined by "; " inside double quotes.
pub open spec fn list_text(items: Seq<Seq<char>>) -> Seq<char> {
    seq!['"'] + joined(items, seq![';', ' ']) + seq!['"']
}

/// A transaction as "id,time,current block,next block".
pub open spec fn transaction_text(t: Transaction) -> Seq<char> {
    int_text(t.id as int) + seq![','] + time_text(t.time as int) + seq![','] + int_text(
        t.current_block.address(),
    ) + seq![','] + int_text(t.next_block.address())
}

/// The order in which the future event chain `s` hands its transactions out
/// when emptied: earliest first, among equal times the first added first.
pub open spec fn drain_order(s: Seq<Transaction>) -> Seq<Transaction>
    decreases s.len(),
{
    if s.len() == 0 {
        Seq::empty()
    } else {
        proof {
            lemma_earliest(s);
        }
        seq![s[earliest(s)]] + drain_order(s.remove(earliest(s)))
    }
}

/// The texts of the transactions of `s`, in order.
pub open spec fn texts(s: Seq<Transaction>) -> Seq<Seq<char>> {
    s.map_values(|t: Transaction| transaction_text(t))
}

/// The views of the strings of `v`.
pub open spec fn string_views(v: Seq<String>) -> Seq<Seq<char>> {
    v.map_values(|s: String| s@)
}

/// Appends one character.
#[verifier::external_body]
fn push_char(s: &mut String, c: char)
    ensures
        final(s)@ == old(s)@.push(c),
{
    s.push(c);
}

/// The digit for `d`.
fn digit(d: u64) -> (c: char)
    requires
        d < 10,
    ensures
        c == digit_char(d as int),
{
    match d {
        0 => '0',
        1 => '1',
        2 => '2',
        3 => '3',
        4 => '4',
        5 => '5',
        6 => '6',
        7 => '7',
        8 => '8',
        _ => '9',
    }
}

/// Appends the decimal numeral of `n`.
fn push_decimal(s: &mut String, n: u64)
    ensures
        final(s)@ == old(s)@ + decimal(n as nat),
    decreases n,
{
    if n >= 10 {
        push_decimal(s, n / 10);
    }
    push_char(s, digit(n % 10));
    assert(n < 10 ==> decimal(n as nat) =~= seq![digit_char(n as int)]);
}

/// Appends the decimal numeral of `i`, with a minus sign when negative.
fn push_int(s: &mut String, i: i64)
    ensures
        final(s)@ == old(s)@ + int_text(i as int),
{
    if i < 0 {
        push_char(s, '-');
        let m: u64 = (-(i as i128)) as u64;
        push_decimal(s, m);
        assert(final(s)@ =~= old(s)@ + int_text(i as int));
    } else {
        push_decimal(s, i as u64);
    }
}

/// Appends a tick count in model time units with one decimal.
fn push_time(s: &mut String, ticks: i64)
    ensures
        final(s)@ == old(s)@ + time_text(ticks as int),
{
    let ghost start = s@;
    let m: u64 = if ticks < 0 {
        (-(ticks as i128)) as u64
    } else {
        ticks as u64
    };
    if ticks < 0 {
        push_char(s, '-');
    }
    push_decimal(s, m / 10);
    push_char(s, '.');
    push_char(s, digit(m % 10));
    assert(s@ =~= start + time_text(ticks as int));
}

/// A tick count in model time units with one decimal, as in "12.5".
pub fn format_time(ticks: i64) -> (r: String)
    ensures
        r@ == time_text(ticks as int),
{
    let mut s = String::new();
    push_time(&mut s, ticks);
    assert(s@ =~= time_text(ticks as int));
    s
}

/// A transaction as "id,time,current block,next block", the time with one
/// decimal and the blocks by address.
pub fn format_transaction(t: &Transaction) -> (r: String)
    ensures
        r@ == transaction_text(*t),
{
    let mut s = String::new();
    push_int(&mut s, t.id);
    push_char(&mut s, ',');
    push_time(&mut s, t.time);
    push_char(&mut s, ',');
    push_int(&mut s, t.current_block.code() as i64);
    push_char(&mut s, ',');
    push_int(&mut s, t.next_block.code() as i64);
    assert(s@ =~= transaction_text(*t));
    s
}

/// A log table row: the cells between vertical bars.
pub open spec fn row_text(
    a: Seq<char>,
    b: Seq<char>,
    c: Seq<char>,
    d: Seq<char>,
    e: Seq<char>,
) -> Seq<char> {
    seq!['|', ' '] + a + seq![' ', '|', ' '] + b + seq![' ', '|', ' '] + c + seq![' ', '|', ' '] + d
        + seq![' ', '|', ' '] + e + seq![' ', '|']
}

/// The log table's header row.
pub open spec fn header_text() -> Seq<char> {
    row_text(
        padded("Фаза"@, 6),
        padded("Таймер"@, 8),
        padded("Ресурс"@, 6),
        padded("FEC"@, 70),
        padded("CEC"@, 70),
    )
}

/// A log table row for a phase at a moment, with the number of busy
/// machining centres and the texts of both chains.
pub open spec fn log_text(
    phase: Seq<char>,
    ticks: int,
    busy_count: nat,
    fec_str: Seq<char>,
    cec_str: Seq<char>,
) -> Seq<char> {
    row_text(
        padded(phase, 6),
        padded(time_text(ticks), 8),
        padded(decimal(busy_count), 6),
        padded(fec_str, 70),
        padded(cec_str, 70),
    )
}

/// Appends a string slice.
fn push_str(s: &mut String, t: &str)
    ensures
        final(s)@ == old(s)@ + t@,
{
    s.append(t);
}

/// Appends `cell` padded with spaces on the right to `width` characters.
fn push_padded(s: &mut String, cell: &str, width: usize)
    ensures
        final(s)@ == old(s)@ + padded(cell@, width as nat),
{
    let ghost start = s@;
    push_str(s, cell);
    let n = cell.unicode_len();
    let mut k = n;
    while k < width
        invariant
            n == cell@.len(),
            n <= k,
            k == n || k <= width,
            s@ == start + cell@ + Seq::new((k - n) as nat, |i: int| ' '),
        decreases width - k,
    {
        push_char(s, ' ');
        k = k + 1;
        assert(s@ =~= start + cell@ + Seq::new((k - n) as nat, |i: int| ' '));
    }
    if n >= width {
        assert(s@ =~= start + cell@);
    }
    assert(s@ =~= start + padded(cell@, width as nat));
}

/// Appends the separator between two cells of a row.
fn push_separator(s: &mut String)
    ensures
        final(s)@ == old(s)@ + seq![' ', '|', ' '],
{
    push_char(s, ' ');
    push_char(s, '|');
    push_char(s, ' ');
    assert(s@ =~= old(s)@ + seq![' ', '|', ' ']);
}

/// A row of five cells of the given widths.
fn row(a: &str, b: &str, c: &str, d: &str, e: &str) -> (r: String)
    ensures
        r@ == row_text(
            padded(a@, 6),
            padded(b@, 8),
            padded(c@, 6),
            padded(d@, 70),
            padded(e@, 70),
        ),
{
    let mut s = String::new();
    push_char(&mut s, '|');
    push_char(&mut s, ' ');
    push_padded(&mut s, a, 6);
    push_separator(&mut s);
    push_padded(&mut s, b, 8);
    push_separator(&mut s);
    push_padded(&mut s, c, 6);
    push_separator(&mut s);
    push_padded(&mut s, d, 70);
    push_separator(&mut s);
    push_padded(&mut s, e, 70);
    push_char(&mut s, ' ');
    push_char(&mut s, '|');
    assert(s@ =~= row_text(
        padded(a@, 6),
        padded(b@, 8),
        padded(c@, 6),
        padded(d@, 70),
        padded(e@, 70),
    ));
    s
}

/// The header row of the log table.
pub fn header_line() -> (r: String)
    ensures
        r@ == header_text(),
{
    row("Фаза", "Таймер", "Ресурс", "FEC", "CEC")
}

/// A row of the log table.
pub fn log_line(phase: &str, time: i64, busy_count: usize, fec_str: &str, cec_str: &str) -> (r:
    String)
    ensures
        r@ == log_text(phase@, time as int, busy_count as nat, fec_str@, cec_str@),
{
    let time_str = format_time(time);
    let mut busy_str = String::new();
    push_decimal(&mut busy_str, busy_count as u64);
    assert(busy_str@ =~= decimal(busy_count as nat));
    row(phase, time_str.as_str(), busy_str.as_str(), fec_str, cec_str)
}

/// Joining one more item adds the separator and the item.
proof fn lemma_joined_step(list: Seq<Seq<char>>, sep: Seq<char>, i: int)
    requires
        0 <= i < list.len(),
    ensures
        joined(list.take(i + 1), sep) == if i == 0 {
            list[0]
        } else {
            joined(list.take(i), sep) + sep + list[i]
        },
{
    assert(list.take(i + 1).drop_last() =~= list.take(i));
}

/// A quoted list: the items joined by "; " inside double quotes; an empty
/// list gives two double quotes.
pub fn format_list(items: &[String]) -> (r: String)
    ensures
        r@ == list_text(string_views(items@)),
{
    let ghost views = string_views(items@);
    if items.len() == 0 {
        let mut s = String::new();
        push_char(&mut s, '"');
        push_char(&mut s, '"');
        assert(s@ =~= list_text(views));
        return s;
    }
    let mut s = String::new();
    push_char(&mut s, '"');
    let n = items.len();
    let mut i: usize = 0;
    while i < n
        invariant
            n == items@.len(),
            views == string_views(items@),
            i <= n,
            s@ == seq!['"'] + joined(views.take(i as int), seq![';', ' ']),
        decreases n - i,
    {
        proof {
            lemma_joined_step(views, seq![';', ' '], i as int);
        }
        let ghost before = s@;
        if i > 0 {
            push_char(&mut s, ';');
            push_char(&mut s, ' ');
        }
        push_str(&mut s, items[i].as_str());
        assert(s@ =~= seq!['"'] + joined(views.take(i + 1), seq![';', ' ']));
        i = i + 1;
    }
    push_char(&mut s, '"');
    assert(views.take(n as int) =~= views);
    assert(s@ =~= list_text(views));
    s
}

/// Two double quotes: the text of an empty list.
fn empty_list() -> (r: String)
    ensures
        r@ == list_text(Seq::empty()),
{
    let mut s = String::new();
    push_char(&mut s, '"');
    push_char(&mut s, '"');
    assert(s@ =~= list_text(Seq::empty()));
    s
}

/// The future event chain as a quoted list of transactions, in the order in
/// which the chain hands them out.
pub fn format_fec(fec: &FEC) -> (r: String)
    ensures
        r@ == list_text(texts(drain_order(fec@))),
{
    if fec.is_empty() {
        let r = empty_list();
        assert(texts(drain_order(fec@)) =~= Seq::<Seq<char>>::empty());
        return r;
    }
    let mut temp = FEC::new();
    let n = fec.events.len();
    let mut i: usize = 0;
    while i < n
        invariant
            n == fec@.len(),
            i <= n,
            temp@ == fec@.take(i as int),
        decreases n - i,
    {
        temp.add(fec.events[i]);
        i = i + 1;
        assert(temp@ =~= fec@.take(i as int));
    }
    assert(temp@ =~= fec@);
    let mut items: Vec<String> = Vec::new();
    let ghost mut done: Seq<Transaction> = Seq::empty();
    while !temp.is_empty()
        invariant
            drain_order(fec@) == done + drain_order(temp@),
            string_views(items@) == texts(done),
        decreases temp@.len(),
    {
        let ghost before = temp@;
        let ghost old_items = items@;
        proof {
            lemma_earliest(before);
        }
        let t = temp.pop().unwrap();
        let st = format_transaction(&t);
        items.push(st);
        proof {
            assert(string_views(items@) =~= string_views(old_items).push(st@));
            assert(texts(done.push(t)) =~= texts(done).push(transaction_text(t)));
            assert(drain_order(before) == seq![t] + drain_order(temp@));
            assert(done + drain_order(before) =~= done.push(t) + drain_order(temp@));
            done = done.push(t);
            assert(string_views(items@) =~= texts(done));
        }
    }
    assert(drain_order(temp@) =~= Seq::<Transaction>::empty());
    assert(done =~= drain_order(fec@));
    format_list(items.as_slice())
}

/// The current event chain as a quoted list of transactions, front first.
pub fn format_cec(cec: &CEC) -> (r: String)
    ensures
        r@ == list_text(texts(cec@)),
{
    if cec.is_empty() {
        let r = empty_list();
        assert(texts(cec@) =~= Seq::<Seq<char>>::empty());
        return r;
    }
    let n = cec.queue.len();
    let mut items: Vec<String> = Vec::new();
    let mut i: usize = 0;
    while i < n
        invariant
            n == cec@.len(),
            i <= n,
            string_views(items@) == texts(cec@.take(i as int)),
        decreases n - i,
    {
        let ghost old_items = items@;
        let st = format_transaction(&cec.queue[i]);
        items.push(st);
        proof {
            assert(string_views(items@) =~= string_views(old_items).push(st@));
            assert(cec@.take(i + 1) =~= cec@.take(i as int).push(cec@[i as int]));
            assert(texts(cec@.take(i + 1)) =~= texts(cec@.take(i as int)).push(
                transaction_text(cec@[i as int]),
            ));
        }
        i = i + 1;
    }
    assert(cec@.take(n as int) =~= cec@);
    format_list(items.as_slice())
}

} // verus!
