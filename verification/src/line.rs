//! The lines that are sent to clients: random printable text that no SSH client
//! takes for the start of a banner.

use vstd::prelude::*;

verus! {

/// Carriage return.
pub const CR: u8 = 0x0D;

/// Line feed.
pub const LF: u8 = 0x0A;

/// The first printable ASCII character, the space.
pub const FIRST_PRINTABLE: u8 = 0x20;

/// The last printable ASCII character, the tilde.
pub const LAST_PRINTABLE: u8 = 0x7E;

/// The letter that no line begins with: an SSH banner begins with it.
pub const BANNER_START: u8 = 0x53;

/// The length of the shortest line: one character and the line ending.
pub const MIN_LINE_LENGTH: usize = 3;

/// Whether `byte` is a printable ASCII character.
pub open spec fn is_printable(byte: u8) -> bool {
    FIRST_PRINTABLE <= byte <= LAST_PRINTABLE
}

/// Whether `line` is a line that may be sent where lines are at most `max_len`
/// bytes long: between 3 and `max_len` bytes, of which the last two are a carriage
/// return and a line feed and all before them are printable ASCII characters, the
/// first of them not an `S`.
pub open spec fn is_line(line: Seq<u8>, max_len: nat) -> bool {
    &&& MIN_LINE_LENGTH <= line.len() <= max_len
    &&& line[line.len() - 2] == CR
    &&& line[line.len() - 1] == LF
    &&& forall|i: int| 0 <= i < line.len() - 2 ==> is_printable(#[trigger] line[i])
    &&& line[0] != BANNER_START
}

/// The largest number that may be drawn for the character at `position`. One
/// number fewer may be drawn for the first character than for the others, since
/// one character fewer may stand there.
pub open spec fn draw_limit(position: int) -> u8 {
    if position == 0 {
        (LAST_PRINTABLE - 1) as u8
    } else {
        LAST_PRINTABLE
    }
}

/// Whether `draw` may be drawn for the character at `position`.
pub open spec fn is_draw(position: int, draw: u8) -> bool {
    FIRST_PRINTABLE <= draw <= draw_limit(position)
}

/// The character at `position` that `draw` stands for. Every printable character
/// stands for itself, but at the start of a line, where those from `S` on make
/// room: each stands for the next.
pub open spec fn content_byte(position: int, draw: u8) -> u8 {
    if position == 0 && draw >= BANNER_START {
        (draw + 1) as u8
    } else {
        draw
    }
}

/// The line that `draws` stand for: a character for each, then the line ending.
pub open spec fn line_of(draws: Seq<u8>) -> Seq<u8> {
    Seq::new(draws.len(), |i: int| content_byte(i, draws[i])) + seq![CR, LF]
}

/// `fastrand::usize` on the closed range from `low` to `high`: some number of that
/// range, taken from the generator of the calling thread. Nothing is said of which.
#[verifier::external_body]
fn random_length(low: usize, high: usize) -> (n: usize)
    requires
        low <= high,
    ensures
        low <= n <= high,
{
    fastrand::usize(low..=high)
}

/// `fastrand::u8` on the closed range from `low` to `high`: some number of that
/// range, taken from the generator of the calling thread. Nothing is said of which.
#[verifier::external_body]
fn random_byte(low: u8, high: u8) -> (n: u8)
    requires
        low <= high,
    ensures
        low <= n <= high,
{
    fastrand::u8(low..=high)
}

/// The character at `position` that `draw` stands for.
pub fn content_byte_of(position: usize, draw: u8) -> (byte: u8)
    requires
        is_draw(position as int, draw),
    ensures
        byte == content_byte(position as int, draw),
        is_printable(byte),
        position == 0 ==> byte != BANNER_START,
{
    if position == 0 && draw >= BANNER_START {
        draw + 1
    } else {
        draw
    }
}

/// Puts together the line that `draws` stand for.
pub fn assemble_line(draws: &Vec<u8>) -> (line: Vec<u8>)
    requires
        1 <= draws.len() <= usize::MAX - 2,
        forall|i: int| 0 <= i < draws.len() ==> is_draw(i, #[trigger] draws[i]),
    ensures
        line@ == line_of(draws@),
        is_line(line@, (draws.len() + 2) as nat),
        line.len() == draws.len() + 2,
{
    let mut line: Vec<u8> = Vec::new();
    let mut i: usize = 0;
    while i < draws.len()
        invariant
            i <= draws.len(),
            line.len() == i,
            forall|k: int| 0 <= k < draws.len() ==> is_draw(k, #[trigger] draws[k]),
            forall|k: int| 0 <= k < i ==> #[trigger] line[k] == content_byte(k, draws[k]),
        decreases draws.len() - i,
    {
        let byte: u8 = content_byte_of(i, draws[i]);
        line.push(byte);
        i = i + 1;
    }
    line.push(CR);
    line.push(LF);
    assert(line@ =~= line_of(draws@));
    line
}

/// One line to send to a client: random printable text of random length, at most
/// `max_len` bytes with its line ending.
pub fn generate_line(max_len: usize) -> (line: Vec<u8>)
    requires
        MIN_LINE_LENGTH <= max_len,
    ensures
        is_line(line@, max_len as nat),
{
    let length: usize = random_length(MIN_LINE_LENGTH, max_len);
    let content: usize = length - 2;
    let mut draws: Vec<u8> = Vec::new();
    let mut i: usize = 0;
    while i < content
        invariant
            i <= content,
            draws.len() == i,
            forall|k: int| 0 <= k < i ==> is_draw(k, #[trigger] draws[k]),
        decreases content - i,
    {
        let high: u8 = if i == 0 {
            LAST_PRINTABLE - 1
        } else {
            LAST_PRINTABLE
        };
        let draw: u8 = random_byte(FIRST_PRINTABLE, high);
        draws.push(draw);
        i = i + 1;
    }
    assemble_line(&draws)
}

/// A line matches `^[\x20-\x7E]{1,253}\r\n$` wherever lines are at most 255 bytes
/// long, and does not begin with `S`.
pub proof fn lemma_line_pattern(line: Seq<u8>, max_len: nat)
    requires
        is_line(line, max_len),
        max_len <= 255,
    ensures
        1 <= line.len() - 2 <= 253,
        forall|i: int| 0 <= i < line.len() - 2 ==> 0x20 <= #[trigger] line[i] <= 0x7E,
        line[line.len() - 2] == 0x0D,
        line[line.len() - 1] == 0x0A,
        line[0] != 0x53,
{
}

/// Where lines are at most 3 bytes long, every line is one printable character
/// and the line ending.
pub proof fn lemma_shortest_line(line: Seq<u8>)
    requires
        is_line(line, 3),
    ensures
        line.len() == 3,
        is_printable(line[0]),
        line[1] == CR,
        line[2] == LF,
{
}

/// No line is longer than the limit it was made for, so none has more than 255
/// bytes where that limit is 255.
pub proof fn lemma_line_within_limit(line: Seq<u8>, max_len: nat)
    requires
        is_line(line, max_len),
    ensures
        line.len() <= max_len,
        line.len() - 2 < max_len,
{
}

} // verus!
