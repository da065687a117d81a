use vstd::prelude::*;
use crate::action::Action;

verus! {

/// The byte is a decimal digit.
pub open spec fn is_digit(byte: u8) -> bool {
    0x30 <= byte <= 0x39
}

/// The byte is blank: a space, a tab, a line feed, a vertical tab, a form feed or a
/// carriage return.
pub open spec fn is_blank(byte: u8) -> bool {
    byte == 0x20 || (0x09 <= byte <= 0x0d)
}

/// Every byte of the text is a decimal digit.
pub open spec fn all_digits(text: Seq<u8>) -> bool {
    forall|i: int| 0 <= i < text.len() ==> is_digit(#[trigger] text[i])
}

/// The number that a text of decimal digits denotes.
pub open spec fn digits_value(text: Seq<u8>) -> nat
    decreases text.len(),
{
    if text.len() == 0 {
        0
    } else {
        digits_value(text.drop_last()) * 10 + (text.last() - 0x30) as nat
    }
}

/// The number that the text denotes without its sign: one digit at least, and digits only.
pub open spec fn magnitude(text: Seq<u8>) -> Option<nat> {
    if text.len() > 0 && all_digits(text) {
        Some(digits_value(text))
    } else {
        None
    }
}

/// The text without the one sign that it may start with.
pub open spec fn unsigned_part(text: Seq<u8>) -> Seq<u8> {
    if text.len() > 0 && (text[0] == 0x2b || text[0] == 0x2d) {
        text.skip(1)
    } else {
        text
    }
}

/// The number that the text denotes as the number of a card: digits after an optional
/// plus or minus sign, as long as the number is that of an `i32`.
pub open spec fn card_number(text: Seq<u8>) -> Option<int> {
    match magnitude(unsigned_part(text)) {
        Some(value) => {
            let number = if text[0] == 0x2d {
                -(value as int)
            } else {
                value as int
            };
            if i32::MIN <= number <= i32::MAX {
                Some(number)
            } else {
                None
            }
        },
        None => None,
    }
}

/// The number that the text denotes as a row or a column: digits after an optional plus
/// sign, as long as the number is that of a `usize`.
pub open spec fn coordinate(text: Seq<u8>) -> Option<int> {
    if text.len() > 0 && text[0] == 0x2d {
        None
    } else {
        match magnitude(unsigned_part(text)) {
            Some(value) if value <= usize::MAX => Some(value as int),
            _ => None,
        }
    }
}

/// The first place at or after `from` that holds no blank, or the end of the text.
pub open spec fn skip_blanks(text: Seq<u8>, from: int) -> int
    decreases text.len() - from,
{
    if 0 <= from < text.len() && is_blank(text[from]) {
        skip_blanks(text, from + 1)
    } else {
        from
    }
}

/// The first place at or after `from` that holds a blank, or the end of the text.
pub open spec fn skip_word(text: Seq<u8>, from: int) -> int
    decreases text.len() - from,
{
    if 0 <= from < text.len() && !is_blank(text[from]) {
        skip_word(text, from + 1)
    } else {
        from
    }
}

/// The row and the column that the text names: its first two words, both of them
/// coordinates. What follows them is not read.
pub open spec fn tile_position(text: Seq<u8>) -> Option<(int, int)> {
    let row_start = skip_blanks(text, 0);
    let row_end = skip_word(text, row_start);
    let column_start = skip_blanks(text, row_end);
    let column_end = skip_word(text, column_start);
    match (
        coordinate(text.subrange(row_start, row_end)),
        coordinate(text.subrange(column_start, column_end)),
    ) {
        (Some(row), Some(column)) => Some((row, column)),
        _ => None,
    }
}

/// The byte as a small letter, where it is a capital letter of the Latin alphabet.
pub open spec fn lowered(byte: u8) -> u8 {
    if 0x41 <= byte <= 0x5a {
        (byte + 0x20) as u8
    } else {
        byte
    }
}

/// The text reads as `word` when capital and small letters are taken for the same.
pub open spec fn reads_as(text: Seq<u8>, word: Seq<u8>) -> bool {
    text.len() == word.len() && forall|i: int|
        0 <= i < text.len() ==> lowered(#[trigger] text[i]) == word[i]
}

/// The word by which the player asks for an action that needs no number: two letters for
/// the conversions and the standard projects, and `pass`.
pub open spec fn command_word(action: Action) -> Seq<u8> {
    match action {
        Action::HeatConversion => seq![0x68u8, 0x63u8],
        Action::PlantConversion => seq![0x70u8, 0x63u8],
        Action::StandardCity => seq![0x73u8, 0x63u8],
        Action::StandardGreenery => seq![0x73u8, 0x67u8],
        Action::StandardAsteroid => seq![0x73u8, 0x74u8],
        Action::StandardAquifer => seq![0x73u8, 0x6fu8],
        Action::StandardPowerPlant => seq![0x73u8, 0x65u8],
        Action::Pass => seq![0x70u8, 0x61u8, 0x73u8, 0x73u8],
        _ => Seq::<u8>::empty(),
    }
}

/// The action that the text asks for by a word, if it is one of the command words.
pub open spec fn command(text: Seq<u8>) -> Option<Action> {
    if reads_as(text, command_word(Action::HeatConversion)) {
        Some(Action::HeatConversion)
    } else if reads_as(text, command_word(Action::PlantConversion)) {
        Some(Action::PlantConversion)
    } else if reads_as(text, command_word(Action::StandardCity)) {
        Some(Action::StandardCity)
    } else if reads_as(text, command_word(Action::StandardGreenery)) {
        Some(Action::StandardGreenery)
    } else if reads_as(text, command_word(Action::StandardAsteroid)) {
        Some(Action::StandardAsteroid)
    } else if reads_as(text, command_word(Action::StandardAquifer)) {
        Some(Action::StandardAquifer)
    } else if reads_as(text, command_word(Action::StandardPowerPlant)) {
        Some(Action::StandardPowerPlant)
    } else if reads_as(text, command_word(Action::Pass)) {
        Some(Action::Pass)
    } else {
        None
    }
}

/// The action that a line of input asks for: a number plays the card of that number, a
/// command word asks for its action, and two numbers place the waiting tile at that row
/// and column. Anything else asks for nothing.
pub open spec fn action_of(text: Seq<u8>) -> Option<Action> {
    match card_number(text) {
        Some(number) => Some(Action::Card(number as i32)),
        None => match command(text) {
            Some(action) => Some(action),
            None => match tile_position(text) {
                Some((row, column)) => Some(Action::TilePlacement((row as usize, column as usize))),
                None => None,
            },
        },
    }
}

/// A text of digits denotes at least what any of its beginnings denotes.
proof fn lemma_value_grows(text: Seq<u8>, upto: int)
    requires
        all_digits(text),
        0 <= upto <= text.len(),
    ensures
        digits_value(text.take(upto)) <= digits_value(text),
    decreases text.len(),
{
    if upto == text.len() {
        assert(text.take(upto) == text);
    } else {
        assert(text.drop_last().take(upto) == text.take(upto));
        lemma_value_grows(text.drop_last(), upto);
    }
}

/// The number that the digits from `from` up to `to` denote, if it is not above `limit`.
fn parse_digits(text: &[u8], from: usize, to: usize, limit: u64) -> (value: Option<u64>)
    requires
        from <= to <= text@.len(),
    ensures
        value == match magnitude(text@.subrange(from as int, to as int)) {
            Some(number) if number <= limit => Some(number as u64),
            _ => None::<u64>,
        },
{
    if from == to {
        return None;
    }
    let ghost digits = text@.subrange(from as int, to as int);
    let mut value: u64 = 0;
    let mut i: usize = from;
    while i < to
        invariant
            from <= i <= to <= text@.len(),
            digits == text@.subrange(from as int, to as int),
            all_digits(digits.take(i - from)),
            value == digits_value(digits.take(i - from)),
            value <= limit,
        decreases to - i,
    {
        let byte = text[i];
        if byte < 0x30 || byte > 0x39 {
            assert(!is_digit(digits[i - from]));
            return None;
        }
        let digit: u64 = (byte - 0x30) as u64;
        proof {
            let longer = digits.take(i - from + 1);
            assert(longer.drop_last() == digits.take(i - from));
            if all_digits(digits) {
                lemma_value_grows(digits, i - from + 1);
            }
        }
        if digit > limit || value > (limit - digit) / 10 {
            return None;
        }
        value = value * 10 + digit;
        i = i + 1;
    }
    assert(digits.take(to - from) == digits);
    Some(value)
}

/// The number of the card that the text names, if it names one.
fn parse_card_number(text: &[u8]) -> (number: Option<i32>)
    ensures
        number == match card_number(text@) {
            Some(value) => Some(value as i32),
            None => None::<i32>,
        },
{
    let size = text.len();
    if size == 0 {
        return None;
    }
    if text[0] == 0x2d {
        match parse_digits(text, 1, size, 0x8000_0000) {
            Some(value) => Some((-(value as i64)) as i32),
            None => None,
        }
    } else {
        let from: usize = if text[0] == 0x2b {
            1
        } else {
            0
        };
        assert(unsigned_part(text@) == text@.subrange(from as int, size as int));
        match parse_digits(text, from, size, 0x7fff_ffff) {
            Some(value) => Some(value as i32),
            None => None,
        }
    }
}

/// The row or the column that the bytes from `from` up to `to` name, if they name one.
fn parse_coordinate(text: &[u8], from: usize, to: usize) -> (number: Option<usize>)
    requires
        from <= to <= text@.len(),
    ensures
        number == match coordinate(text@.subrange(from as int, to as int)) {
            Some(value) => Some(value as usize),
            None => None::<usize>,
        },
{
    let ghost word = text@.subrange(from as int, to as int);
    if from == to {
        return None;
    }
    if text[from] == 0x2d {
        return None;
    }
    let start: usize = if text[from] == 0x2b {
        from + 1
    } else {
        from
    };
    assert(unsigned_part(word) == text@.subrange(start as int, to as int));
    match parse_digits(text, start, to, usize::MAX as u64) {
        Some(value) => Some(value as usize),
        None => None,
    }
}

/// Whether the byte is blank.
fn blank(byte: u8) -> (blank: bool)
    ensures
        blank == is_blank(byte),
{
    byte == 0x20 || (0x09 <= byte && byte <= 0x0d)
}

/// The first place at or after `from` that holds no blank.
fn after_blanks(text: &[u8], from: usize) -> (place: usize)
    requires
        from <= text@.len(),
    ensures
        place == skip_blanks(text@, from as int),
        from <= place <= text@.len(),
{
    let mut place: usize = from;
    while place < text.len() && blank(text[place])
        invariant
            from <= place <= text@.len(),
            skip_blanks(text@, place as int) == skip_blanks(text@, from as int),
        decreases text@.len() - place,
    {
        place = place + 1;
    }
    place
}

/// The first place at or after `from` that holds a blank.
fn after_word(text: &[u8], from: usize) -> (place: usize)
    requires
        from <= text@.len(),
    ensures
        place == skip_word(text@, from as int),
        from <= place <= text@.len(),
{
    let mut place: usize = from;
    while place < text.len() && !blank(text[place])
        invariant
            from <= place <= text@.len(),
            skip_word(text@, place as int) == skip_word(text@, from as int),
        decreases text@.len() - place,
    {
        place = place + 1;
    }
    place
}

/// The placement that the text asks for, if its first two words are a row and a column.
pub fn parse_tile_position_input(text: &[u8]) -> (action: Option<Action>)
    ensures
        action == match tile_position(text@) {
            Some((row, column)) => Some(Action::TilePlacement((row as usize, column as usize))),
            None => None::<Action>,
        },
{
    let row_start = after_blanks(text, 0);
    let row_end = after_word(text, row_start);
    let column_start = after_blanks(text, row_end);
    let column_end = after_word(text, column_start);
    let row = parse_coordinate(text, row_start, row_end);
    let column = parse_coordinate(text, column_start, column_end);
    match (row, column) {
        (Some(row), Some(column)) => Some(Action::TilePlacement((row, column))),
        _ => None,
    }
}

/// Whether the text reads as `word`, capital letters taken for small ones.
fn reads(text: &[u8], word: &[u8]) -> (same: bool)
    ensures
        same == reads_as(text@, word@),
{
    if text.len() != word.len() {
        return false;
    }
    let mut i: usize = 0;
    while i < text.len()
        invariant
            i <= text@.len(),
            text@.len() == word@.len(),
            forall|k: int| 0 <= k < i ==> lowered(#[trigger] text@[k]) == word@[k],
        decreases text@.len() - i,
    {
        let byte = text[i];
        let small: u8 = if 0x41 <= byte && byte <= 0x5a {
            byte + 0x20
        } else {
            byte
        };
        if small != word[i] {
            return false;
        }
        i = i + 1;
    }
    true
}

/// The action that a line of input asks for, if it asks for one.
pub fn map_user_input(input: &[u8]) -> (action: Option<Action>)
    ensures
        action == action_of(input@),
{
    if let Some(card_id) = parse_card_number(input) {
        return Some(Action::Card(card_id));
    }
    let hc: [u8; 2] = [0x68, 0x63];
    let pc: [u8; 2] = [0x70, 0x63];
    let sc: [u8; 2] = [0x73, 0x63];
    let sg: [u8; 2] = [0x73, 0x67];
    let st: [u8; 2] = [0x73, 0x74];
    let so: [u8; 2] = [0x73, 0x6f];
    let se: [u8; 2] = [0x73, 0x65];
    let pass: [u8; 4] = [0x70, 0x61, 0x73, 0x73];
    if reads(input, hc.as_slice()) {
        Some(Action::HeatConversion)
    } else if reads(input, pc.as_slice()) {
        Some(Action::PlantConversion)
    } else if reads(input, sc.as_slice()) {
        Some(Action::StandardCity)
    } else if reads(input, sg.as_slice()) {
        Some(Action::StandardGreenery)
    } else if reads(input, st.as_slice()) {
        Some(Action::StandardAsteroid)
    } else if reads(input, so.as_slice()) {
        Some(Action::StandardAquifer)
    } else if reads(input, se.as_slice()) {
        Some(Action::StandardPowerPlant)
    } else if reads(input, pass.as_slice()) {
        Some(Action::Pass)
    } else {
        parse_tile_position_input(input)
    }
}

} // verus!
