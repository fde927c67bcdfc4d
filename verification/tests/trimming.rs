use temp_converter::unit::{parse_unit_choice, UnitChoice, UnitError};

fn has_white_space_property(c: char) -> bool {
    matches!(
        c,
        '\u{0009}'..='\u{000D}'
            | '\u{0020}'
            | '\u{0085}'
            | '\u{00A0}'
            | '\u{1680}'
            | '\u{2000}'..='\u{200A}'
            | '\u{2028}'
            | '\u{2029}'
            | '\u{202F}'
            | '\u{205F}'
            | '\u{3000}'
    )
}

#[test]
fn exactly_the_white_space_characters_are_trimmed_in_front() {
    let mut line = String::new();
    for c in '\u{0}'..=char::MAX {
        line.clear();
        line.push(c);
        line.push('F');
        let expected = if has_white_space_property(c) {
            Ok(UnitChoice::ToFahrenheit)
        } else {
            Err(UnitError::NotAChar)
        };
        assert_eq!(parse_unit_choice(&line), expected, "U+{:04X}", c as u32);
    }
}

#[test]
fn exactly_the_white_space_characters_are_trimmed_behind() {
    let mut line = String::new();
    for c in '\u{0}'..=char::MAX {
        line.clear();
        line.push('C');
        line.push(c);
        let expected = if has_white_space_property(c) {
            Ok(UnitChoice::ToCelsius)
        } else {
            Err(UnitError::NotAChar)
        };
        assert_eq!(parse_unit_choice(&line), expected, "U+{:04X}", c as u32);
    }
}

#[test]
fn a_single_white_space_character_is_not_a_char() {
    for c in '\u{0}'..=char::MAX {
        if has_white_space_property(c) {
            assert_eq!(parse_unit_choice(&c.to_string()), Err(UnitError::NotAChar));
        }
    }
}

#[test]
fn zero_width_and_former_white_space_characters_are_not_trimmed() {
    assert_eq!(parse_unit_choice("\u{200B}F"), Err(UnitError::NotAChar));
    assert_eq!(parse_unit_choice("F\u{180E}"), Err(UnitError::NotAChar));
    assert_eq!(parse_unit_choice("\u{FEFF}F"), Err(UnitError::NotAChar));
    assert_eq!(parse_unit_choice("F\u{001F}"), Err(UnitError::NotAChar));
}

#[test]
fn trimming_takes_runs_of_white_space_from_both_ends() {
    assert_eq!(
        parse_unit_choice("\t\u{2003} \u{0085}\nF\u{000B}\u{000C}\r\n\u{205F}"),
        Ok(UnitChoice::ToFahrenheit)
    );
}
