use temp_converter::dialog::{Rejection, Stage};
use temp_converter::unit::{UnitChoice, UnitError};
use temp_converter::wording::{chosen_line, complaint, converted_line, question, Notice};

#[test]
fn the_fixed_lines_read_as_they_should() {
    assert_eq!(Notice::Welcome.text(), "Welcome to the temperature converter!");
    assert_eq!(
        Notice::AskTemperature.text(),
        "Please input the temperature you would like to convert. We will choose the temperature type next."
    );
    assert_eq!(
        Notice::InvalidTemperature.text(),
        "This is not a valid temperature! Try again..."
    );
    assert_eq!(
        Notice::AskUnit.text(),
        "Please input the temp type we are converting to:\n'F' for fahrenheit\n'C' for celsius."
    );
    assert_eq!(Notice::NotAChar.text(), "This is not a char! Try again...");
    assert_eq!(Notice::NotAValidChoice.text(), "Not a valid choice");
    assert_eq!(Notice::ReadFailed.text(), "Failed to read line");
}

#[test]
fn the_unit_question_takes_three_lines() {
    assert_eq!(Notice::AskUnit.text().lines().count(), 3);
}

#[test]
fn each_waiting_stage_has_its_question() {
    assert_eq!(question(&Stage::<f32>::AwaitTemperature), Some(Notice::AskTemperature));
    assert_eq!(question(&Stage::AwaitUnit { temperature: 1.5f32 }), Some(Notice::AskUnit));
}

#[test]
fn nothing_is_asked_once_the_dialog_is_over() {
    assert_eq!(question(&Stage::<f32>::Finished), None);
    assert_eq!(question(&Stage::<f32>::Aborted), None);
}

#[test]
fn each_rejection_has_its_complaint() {
    assert_eq!(complaint(Rejection::InvalidTemperature), Notice::InvalidTemperature);
    assert_eq!(complaint(Rejection::Unit(UnitError::NotAChar)), Notice::NotAChar);
    assert_eq!(
        complaint(Rejection::Unit(UnitError::NotAValidChoice)),
        Notice::NotAValidChoice
    );
}

#[test]
fn the_chosen_temperature_is_shown_without_a_unit() {
    assert_eq!(chosen_line("98.6"), "Your chosen temperature is: 98.6");
    assert_eq!(chosen_line(&format!("{}", 100f32)), "Your chosen temperature is: 100");
    assert_eq!(chosen_line(""), "Your chosen temperature is: ");
}

#[test]
fn the_result_of_f_is_labelled_celsius() {
    assert_eq!(
        converted_line("212", UnitChoice::ToFahrenheit),
        "Your converted temp is 212 celsius!"
    );
}

#[test]
fn the_result_of_c_is_labelled_fahrenheit() {
    assert_eq!(
        converted_line("37.78", UnitChoice::ToCelsius),
        "Your converted temp is 37.78 fahrenheit!"
    );
}

#[test]
fn the_value_is_shown_as_it_was_written() {
    assert_eq!(
        converted_line("-0", UnitChoice::ToCelsius),
        "Your converted temp is -0 fahrenheit!"
    );
    assert_eq!(
        converted_line("NaN", UnitChoice::ToFahrenheit),
        "Your converted temp is NaN celsius!"
    );
    assert_eq!(
        converted_line("", UnitChoice::ToFahrenheit),
        "Your converted temp is  celsius!"
    );
}
