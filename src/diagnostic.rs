use vstd::prelude::*;
use vstd::string::StringExecFns;

verus! {

/// The decimal digit for `d` (below ten).
pub open spec fn digit_char(d: nat) -> char {
    if d == 0 { '0' }
    else if d == 1 { '1' }
    else if d == 2 { '2' }
    else if d == 3 { '3' }
    else if d == 4 { '4' }
    else if d == 5 { '5' }
    else if d == 6 { '6' }
    else if d == 7 { '7' }
    else if d == 8 { '8' }
    else { '9' }
}

/// The decimal rendering of `n`, without leading zeros.
pub open spec fn decimal(n: nat) -> Seq<char>
    decreases n,
{
    if n < 10 {
        seq![digit_char(n)]
    } else {
        decimal(n / 10).push(digit_char(n % 10))
    }
}

/// Relies on std's `String::push`: the character is appended at the end.
#[verifier::external_body]
fn push_char(s: &mut String, c: char)
    ensures
        final(s)@ == old(s)@.push(c),
{
    s.push(c)
}

fn digit(d: usize) -> (c: char)
    requires
        d < 10,
    ensures
        c == digit_char(d as nat),
{
    if d == 0 { '0' }
    else if d == 1 { '1' }
    else if d == 2 { '2' }
    else if d == 3 { '3' }
    else if d == 4 { '4' }
    else if d == 5 { '5' }
    else if d == 6 { '6' }
    else if d == 7 { '7' }
    else if d == 8 { '8' }
    else { '9' }
}

/// Appends the decimal rendering of `n` to `out`.
pub fn push_decimal(out: &mut String, n: usize)
    ensures
        final(out)@ == old(out)@ + decimal(n as nat),
    decreases n,
{
    if n >= 10 {
        push_decimal(out, n / 10);
    }
    push_char(out, digit(n % 10));
}

/// How many newline characters `s` holds.
pub open spec fn newline_count(s: Seq<char>) -> nat
    decreases s.len(),
{
    if s.len() == 0 {
        0
    } else {
        newline_count(s.drop_last()) + if s.last() == '\n' { 1nat } else { 0nat }
    }
}

/// The text of the zero-based line `n` of `s`: the characters that are not newlines
/// and have exactly `n` newlines before them. A line past the end is empty.
pub open spec fn line_text(s: Seq<char>, n: nat) -> Seq<char>
    decreases s.len(),
{
    if s.len() == 0 {
        seq![]
    } else if s.last() != '\n' && newline_count(s.drop_last()) == n {
        line_text(s.drop_last(), n).push(s.last())
    } else {
        line_text(s.drop_last(), n)
    }
}

/// The one-based line `n` of `s` behind its gutter: `"{n} | {text}"`.
/// Line zero does not exist and shows no text.
pub open spec fn numbered_line(s: Seq<char>, n: nat) -> Seq<char> {
    decimal(n) + seq![' ', '|', ' '] + if n >= 1 { line_text(s, (n - 1) as nat) } else { seq![] }
}

/// A pointer to the one-based column `col`: `col - 1` spaces, then a caret.
pub open spec fn pointer(col: nat) -> Seq<char> {
    Seq::new((col - 1) as nat, |i: int| ' ').push('^')
}

/// Appends the characters of `cs` to `out`.
fn push_chars(out: &mut String, cs: &Vec<char>)
    ensures
        final(out)@ == old(out)@ + cs@,
{
    let ghost start = out@;
    let mut i: usize = 0;
    while i < cs.len()
        invariant
            i <= cs@.len(),
            out@ == start + cs@.subrange(0, i as int),
        decreases cs@.len() - i,
    {
        push_char(out, cs[i]);
        i = i + 1;
        assert(cs@.subrange(0, i as int) == cs@.subrange(0, i - 1).push(cs@[i - 1]));
    }
    assert(cs@.subrange(0, cs@.len() as int) == cs@);
}

/// The characters of the zero-based line `index` of `source`; empty when the
/// buffer has fewer lines.
pub fn line_segment(source: &[char], index: usize) -> (r: Vec<char>)
    ensures
        r@ == line_text(source@, index as nat),
{
    let mut r: Vec<char> = Vec::new();
    let mut seen: usize = 0;
    let mut i: usize = 0;
    while i < source.len()
        invariant
            i <= source@.len(),
            seen <= i,
            seen == newline_count(source@.subrange(0, i as int)),
            r@ == line_text(source@.subrange(0, i as int), index as nat),
        decreases source@.len() - i,
    {
        let c = source[i];
        let ghost before = source@.subrange(0, i as int);
        assert(source@.subrange(0, i + 1).drop_last() == before);
        if c == '\n' {
            seen = seen + 1;
        } else if seen == index {
            r.push(c);
        }
        i = i + 1;
    }
    assert(source@.subrange(0, source@.len() as int) == source@);
    r
}

/// Renders the one-based line `line_num` of `source_toks` behind its gutter,
/// `"{line_num} | {text}"`.
pub fn get_error_line(source_toks: &[char], line_num: usize) -> (r: String)
    ensures
        r@ == numbered_line(source_toks@, line_num as nat),
{
    let mut r = String::new();
    push_decimal(&mut r, line_num);
    push_char(&mut r, ' ');
    push_char(&mut r, '|');
    push_char(&mut r, ' ');
    if line_num >= 1 {
        let text = line_segment(source_toks, line_num - 1);
        push_chars(&mut r, &text);
    }
    r
}

/// The pointer string that marks the one-based column `col_num`: `col_num - 1`
/// spaces and a caret. The mark depends on the column alone, whatever line of
/// `source_toks` it is shown under.
pub fn flash_error_location(source_toks: &Vec<char>, line_num: usize, col_num: usize) -> (r: String)
    requires
        col_num >= 1,
    ensures
        r@ == pointer(col_num as nat),
        r@.len() == col_num,
        r@.last() == '^',
        forall|i: int| 0 <= i < col_num - 1 ==> r@[i] == ' ',
{
    let mut r = String::new();
    let mut i: usize = 1;
    while i < col_num
        invariant
            1 <= i <= col_num,
            r@ == Seq::new((i - 1) as nat, |k: int| ' '),
        decreases col_num - i,
    {
        push_char(&mut r, ' ');
        i = i + 1;
        assert(r@ == Seq::new((i - 1) as nat, |k: int| ' '));
    }
    push_char(&mut r, '^');
    r
}

/// What went wrong while reading the source.
#[derive(Debug, Clone)]
pub enum LexerErrorTypes {
    /// A string literal ran to the end of the buffer.
    UnexpectedEndOfString,
    /// A character that starts no token.
    UnexpectedCharacter(char),
    /// A decimal point with no digit after it.
    InvalidFloatingPoint(),
    /// A numeric lexeme that does not parse as a number.
    InvalidNumber(String),
}

/// The headline of a report of `kind`.
pub open spec fn main_message_of(kind: LexerErrorTypes) -> Seq<char> {
    match kind {
        LexerErrorTypes::UnexpectedEndOfString => "error[E2502] Unexpected end of string"@,
        LexerErrorTypes::UnexpectedCharacter(c) => "error[E2503] Unexpected character '"@ + seq![c, '\''],
        LexerErrorTypes::InvalidFloatingPoint() => "error[E2504] Invalid floating point."@,
        LexerErrorTypes::InvalidNumber(n) => "Invalid number '"@ + n@ + seq!['\''],
    }
}

/// The short message shown beside the pointer in a report of `kind`.
pub open spec fn detail_message_of(kind: LexerErrorTypes) -> Seq<char> {
    match kind {
        LexerErrorTypes::UnexpectedEndOfString => "Unexpected end of string"@,
        LexerErrorTypes::UnexpectedCharacter(c) => "Unexpected character"@,
        LexerErrorTypes::InvalidFloatingPoint() => "Floating point should have a digit after it. \n "@,
        LexerErrorTypes::InvalidNumber(n) => "Invalid number '"@ + n@ + seq!['\''],
    }
}

/// A failure found while reading a source buffer, at a zero-based line and column.
#[derive(Debug, Clone)]
pub struct LexerError {
    pub error_type: LexerErrorTypes,
    pub line: usize,
    pub column: usize,
    pub main_message: String,
    pub file_name: String,
    pub source_toks: Vec<char>,
}

impl LexerError {
    /// Records a failure of kind `error_type` and derives its headline from the kind.
    pub fn new(
        line: usize,
        column: usize,
        error_type: LexerErrorTypes,
        file_name: String,
        source_toks: Vec<char>,
    ) -> (r: LexerError)
        ensures
            r.error_type == error_type,
            r.line == line,
            r.column == column,
            r.main_message@ == main_message_of(error_type),
            r.file_name@ == file_name@,
            r.source_toks@ == source_toks@,
    {
        let main_message = match &error_type {
            LexerErrorTypes::UnexpectedEndOfString => {
                String::from_str("error[E2502] Unexpected end of string")
            },
            LexerErrorTypes::UnexpectedCharacter(c) => {
                let mut m = String::from_str("error[E2503] Unexpected character '");
                push_char(&mut m, *c);
                push_char(&mut m, '\'');
                m
            },
            LexerErrorTypes::InvalidFloatingPoint() => {
                String::from_str("error[E2504] Invalid floating point.")
            },
            LexerErrorTypes::InvalidNumber(n) => quoted_number(n),
        };
        LexerError { error_type, line, column, main_message, file_name, source_toks }
    }

    /// The short message shown beside the pointer.
    pub fn message(&self) -> (r: String)
        ensures
            r@ == detail_message_of(self.error_type),
    {
        match &self.error_type {
            LexerErrorTypes::UnexpectedEndOfString => String::from_str("Unexpected end of string"),
            LexerErrorTypes::UnexpectedCharacter(_) => String::from_str("Unexpected character"),
            LexerErrorTypes::InvalidFloatingPoint() => {
                String::from_str("Floating point should have a digit after it. \n ")
            },
            LexerErrorTypes::InvalidNumber(n) => quoted_number(n),
        }
    }
}

fn quoted_number(n: &String) -> (r: String)
    ensures
        r@ == "Invalid number '"@ + n@ + seq!['\''],
{
    let mut m = String::from_str("Invalid number '");
    m.append(n.as_str());
    push_char(&mut m, '\'');
    m
}

/// The terminal colours a report is painted in.
#[derive(Clone, Copy)]
pub enum Hue {
    Red,
    Purple,
    Yellow,
    Blue,
}

/// The foreground colour code of `hue`.
pub open spec fn hue_code(hue: Hue) -> Seq<char> {
    match hue {
        Hue::Red => seq!['3', '1'],
        Hue::Yellow => seq!['3', '3'],
        Hue::Blue => seq!['3', '4'],
        Hue::Purple => seq!['3', '5'],
    }
}

/// `text` in bold and in `hue`: the escape that sets both, the text, and the reset escape.
pub open spec fn bold_painted(hue: Hue, text: Seq<char>) -> Seq<char> {
    seq!['\x1b', '[', '1', ';'] + hue_code(hue) + seq!['m'] + text + seq!['\x1b', '[', '0', 'm']
}

/// Relies on ansi_term's `Colour::bold` and `Style::paint`, displayed: a bold style
/// with a foreground colour writes `ESC [ 1 ; <code> m`, the text, then `ESC [ 0 m`.
#[verifier::external_body]
fn paint_bold(hue: Hue, text: &str) -> (r: String)
    ensures
        r@ == bold_painted(hue, text@),
{
    let colour = match hue {
        Hue::Red => ansi_term::Colour::Red,
        Hue::Purple => ansi_term::Colour::Purple,
        Hue::Yellow => ansi_term::Colour::Yellow,
        Hue::Blue => ansi_term::Colour::Blue,
    };
    colour.bold().paint(text).to_string()
}

/// Lines at or past this zero-based index get no pointer block in a report.
pub const POINTER_LINE_LIMIT: usize = 10;

/// The block under the headline that shows the failing line and points at the column;
/// present only for lines below `POINTER_LINE_LIMIT`.
pub open spec fn pointer_block(e: LexerError) -> Seq<char> {
    if e.line < POINTER_LINE_LIMIT {
        numbered_line(e.source_toks@, (e.line + 1) as nat) + "\n    "@
            + bold_painted(Hue::Red, pointer((e.column + 2) as nat)) + " "@
            + bold_painted(Hue::Red, detail_message_of(e.error_type)) + "\n"@
    } else {
        seq![]
    }
}

/// The header of a report of `e`:
/// `"\n\n[{file}]->{line + 1}:{column}::Exception Occurred : \n{headline}\n\n"`,
/// with each field painted.
pub open spec fn report_header(e: LexerError) -> Seq<char> {
    "\n\n["@ + bold_painted(Hue::Yellow, e.file_name@) + "]->"@
        + bold_painted(Hue::Red, decimal((e.line + 1) as nat)) + ":"@
        + bold_painted(Hue::Purple, decimal(e.column as nat)) + "::"@
        + bold_painted(Hue::Red, "Exception Occurred"@) + " : \n"@
        + bold_painted(Hue::Blue, e.main_message@) + "\n\n"@
}

/// The whole report of `e`: its header, then its pointer block.
pub open spec fn report_of(e: LexerError) -> Seq<char> {
    report_header(e) + pointer_block(e)
}

/// Appends `text`, painted bold in `hue`, to `out`.
fn push_painted(out: &mut String, hue: Hue, text: &str)
    ensures
        final(out)@ == old(out)@ + bold_painted(hue, text@),
{
    let painted = paint_bold(hue, text);
    out.append(painted.as_str());
}

/// The decimal rendering of `n` as a string.
fn decimal_string(n: usize) -> (r: String)
    ensures
        r@ == decimal(n as nat),
{
    let mut r = String::new();
    push_decimal(&mut r, n);
    r
}

impl LexerError {
    fn header_text(&self) -> (r: String)
        requires
            self.line < usize::MAX,
        ensures
            r@ == report_header(*self),
    {
        let mut r = String::from_str("\n\n[");
        push_painted(&mut r, Hue::Yellow, self.file_name.as_str());
        r.append("]->");
        push_painted(&mut r, Hue::Red, decimal_string(self.line + 1).as_str());
        r.append(":");
        push_painted(&mut r, Hue::Purple, decimal_string(self.column).as_str());
        r.append("::");
        push_painted(&mut r, Hue::Red, "Exception Occurred");
        r.append(" : \n");
        push_painted(&mut r, Hue::Blue, self.main_message.as_str());
        r.append("\n\n");
        r
    }

    fn pointer_text(&self) -> (r: String)
        requires
            self.line < usize::MAX,
            self.column + 2 <= usize::MAX,
        ensures
            r@ == pointer_block(*self),
    {
        if self.line < POINTER_LINE_LIMIT {
            let mut r = get_error_line(self.source_toks.as_slice(), self.line + 1);
            r.append("\n    ");
            let mark = flash_error_location(&self.source_toks, self.line, self.column + 2);
            push_painted(&mut r, Hue::Red, mark.as_str());
            r.append(" ");
            push_painted(&mut r, Hue::Red, self.message().as_str());
            r.append("\n");
            r
        } else {
            String::new()
        }
    }

    /// The text that reporting this failure writes to the error stream.
    pub fn report_text(&self) -> (r: String)
        requires
            self.line < usize::MAX,
            self.column + 2 <= usize::MAX,
        ensures
            r@ == report_of(*self),
    {
        let mut r = self.header_text();
        r.append(self.pointer_text().as_str());
        r
    }
}

/// A report shows the pointer block exactly when the failing line is below
/// `POINTER_LINE_LIMIT`; from that line on, the report is its header alone.
pub proof fn lemma_pointer_block_gate(e: LexerError)
    ensures
        e.line < POINTER_LINE_LIMIT <==> pointer_block(e).len() > 0,
        e.line < POINTER_LINE_LIMIT ==> report_of(e) == report_header(e) + pointer_block(e),
        e.line >= POINTER_LINE_LIMIT ==> report_of(e) == report_header(e),
{
    reveal_strlit("\n");
    if e.line >= POINTER_LINE_LIMIT {
        assert(report_header(e) + seq![] == report_header(e));
    }
}

/// The pointer a report draws for stored column `column` is `column + 1` spaces and
/// then the caret as its last character: the column shifted by the fixed offset of two.
pub proof fn lemma_report_pointer_shape(column: nat)
    ensures
        pointer(column + 2).len() == column + 2,
        forall|i: int| 0 <= i < column + 1 ==> #[trigger] pointer(column + 2)[i] == ' ',
        pointer(column + 2).last() == '^',
{
}

} // verus!
