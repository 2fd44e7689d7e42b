use task_tracker::number::{decimal, parse_id};
use task_tracker::{Action, ArgumentError, Command, Error, IdError, Status};

fn tokens(words: &[&str]) -> std::vec::IntoIter<String> {
    let owned: Vec<String> = words.iter().map(|w| w.to_string()).collect();
    owned.into_iter()
}

fn argument(e: ArgumentError) -> Result<Action, Error> {
    Err(Error::Argument(e))
}

#[test]
fn add_without_description_is_an_argument_error() {
    let r = Action::build(tokens(&["prog", "add"]));
    assert_eq!(r, argument(ArgumentError::MissingDescription(Command::Add)));
    let message = r.unwrap_err().message();
    assert_eq!(message, "Task description was not provided to add task");
    assert!(message.contains("description"));
}

#[test]
fn list_with_unknown_status_names_it() {
    let r = Action::build(tokens(&["prog", "list", "bogus"]));
    assert_eq!(r, argument(ArgumentError::UnknownStatus("bogus".to_string())));
    assert_eq!(r.unwrap_err().message(), "Status bogus is not contemplated");
}

#[test]
fn no_action_is_an_argument_error() {
    assert_eq!(Action::build(tokens(&["prog"])), argument(ArgumentError::MissingAction));
    assert_eq!(Action::build(tokens(&[])), argument(ArgumentError::MissingAction));
    assert_eq!(
        Error::Argument(ArgumentError::MissingAction).message(),
        "Action was not provided"
    );
}

#[test]
fn unknown_action_is_named() {
    let r = Action::build(tokens(&["prog", "frobnicate", "1"]));
    assert_eq!(r, argument(ArgumentError::UnknownAction("frobnicate".to_string())));
    assert_eq!(r.unwrap_err().message(), "Action frobnicate not contemplated");
}

#[test]
fn keywords_are_case_sensitive() {
    assert_eq!(
        Action::build(tokens(&["prog", "Add", "x"])),
        argument(ArgumentError::UnknownAction("Add".to_string()))
    );
    assert_eq!(
        Action::build(tokens(&["prog", "list", "Done"])),
        argument(ArgumentError::UnknownStatus("Done".to_string()))
    );
}

#[test]
fn add_takes_the_description() {
    assert_eq!(
        Action::build(tokens(&["prog", "add", "buy milk"])),
        Ok(Action::Add("buy milk".to_string()))
    );
    assert_eq!(Action::build(tokens(&["prog", "add", ""])), Ok(Action::Add(String::new())));
}

#[test]
fn tokens_after_the_last_argument_are_not_read() {
    assert_eq!(
        Action::build(tokens(&["prog", "add", "buy", "milk"])),
        Ok(Action::Add("buy".to_string()))
    );
    assert_eq!(Action::build(tokens(&["prog", "delete", "3", "4"])), Ok(Action::Delete(3)));
    assert_eq!(
        Action::build(tokens(&["prog", "list", "done", "todo"])),
        Ok(Action::List(Some(Status::Done)))
    );
}

#[test]
fn build_takes_no_more_tokens_than_it_needs() {
    let mut args = tokens(&["prog", "delete", "3", "4", "5"]);
    assert_eq!(Action::build(&mut args), Ok(Action::Delete(3)));
    assert_eq!(args.next(), Some("4".to_string()));
    let mut args = tokens(&["prog", "list", "todo", "x"]);
    assert_eq!(Action::build(&mut args), Ok(Action::List(Some(Status::Todo))));
    assert_eq!(args.next(), Some("x".to_string()));
}

#[test]
fn update_takes_an_id_and_a_description() {
    assert_eq!(
        Action::build(tokens(&["prog", "update", "12", "buy bread"])),
        Ok(Action::Update { id: 12, description: "buy bread".to_string() })
    );
}

#[test]
fn update_without_id() {
    let r = Action::build(tokens(&["prog", "update"]));
    assert_eq!(r, argument(ArgumentError::MissingId(Command::Update)));
    assert_eq!(r.unwrap_err().message(), "Id was not provided to update task");
}

#[test]
fn update_without_description() {
    let r = Action::build(tokens(&["prog", "update", "1"]));
    assert_eq!(r, argument(ArgumentError::MissingDescription(Command::Update)));
    assert_eq!(r.unwrap_err().message(), "Task description was not provided to update task");
}

#[test]
fn update_reports_a_bad_id_before_a_missing_description() {
    assert_eq!(
        Action::build(tokens(&["prog", "update", "one"])),
        argument(ArgumentError::InvalidId(IdError::InvalidDigit))
    );
    assert_eq!(
        Action::build(tokens(&["prog", "update", "one", "text"])),
        argument(ArgumentError::InvalidId(IdError::InvalidDigit))
    );
}

#[test]
fn delete_takes_an_id() {
    assert_eq!(Action::build(tokens(&["prog", "delete", "7"])), Ok(Action::Delete(7)));
    assert_eq!(Action::build(tokens(&["prog", "delete", "0"])), Ok(Action::Delete(0)));
    let r = Action::build(tokens(&["prog", "delete"]));
    assert_eq!(r, argument(ArgumentError::MissingId(Command::Delete)));
    assert_eq!(r.unwrap_err().message(), "Id was not provided to delete task");
}

#[test]
fn mark_in_progress_takes_an_id() {
    assert_eq!(
        Action::build(tokens(&["prog", "mark-in-progress", "2"])),
        Ok(Action::MarkInProgress(2))
    );
    let r = Action::build(tokens(&["prog", "mark-in-progress"]));
    assert_eq!(r, argument(ArgumentError::MissingId(Command::MarkInProgress)));
    assert_eq!(r.unwrap_err().message(), "Id was not provided to mark task in progress");
}

#[test]
fn mark_done_takes_an_id() {
    assert_eq!(Action::build(tokens(&["prog", "mark-done", "2"])), Ok(Action::MarkDone(2)));
    let r = Action::build(tokens(&["prog", "mark-done"]));
    assert_eq!(r, argument(ArgumentError::MissingId(Command::MarkDone)));
    assert_eq!(r.unwrap_err().message(), "Id was not provided to mark task done");
}

#[test]
fn list_takes_an_optional_status() {
    assert_eq!(Action::build(tokens(&["prog", "list"])), Ok(Action::List(None)));
    assert_eq!(
        Action::build(tokens(&["prog", "list", "todo"])),
        Ok(Action::List(Some(Status::Todo)))
    );
    assert_eq!(
        Action::build(tokens(&["prog", "list", "in-progress"])),
        Ok(Action::List(Some(Status::InProgress)))
    );
    assert_eq!(
        Action::build(tokens(&["prog", "list", "done"])),
        Ok(Action::List(Some(Status::Done)))
    );
}

#[test]
fn status_keywords() {
    assert_eq!(Status::from_keyword("todo"), Some(Status::Todo));
    assert_eq!(Status::from_keyword("in-progress"), Some(Status::InProgress));
    assert_eq!(Status::from_keyword("done"), Some(Status::Done));
    assert_eq!(Status::from_keyword("in progress"), None);
    assert_eq!(Status::from_keyword(""), None);
    assert_eq!(Status::Todo.label(), "Todo");
    assert_eq!(Status::InProgress.label(), "InProgress");
    assert_eq!(Status::Done.label(), "Done");
}

#[test]
fn ids_are_decimal_numbers() {
    assert_eq!(parse_id("0"), Ok(0));
    assert_eq!(parse_id("7"), Ok(7));
    assert_eq!(parse_id("42"), Ok(42));
    assert_eq!(parse_id("007"), Ok(7));
    assert_eq!(parse_id("+7"), Ok(7));
    assert_eq!(parse_id("1234567890"), Ok(1234567890));
}

#[test]
fn what_is_no_id() {
    assert_eq!(parse_id(""), Err(IdError::Empty));
    assert_eq!(parse_id("+"), Err(IdError::InvalidDigit));
    assert_eq!(parse_id("-"), Err(IdError::InvalidDigit));
    assert_eq!(parse_id("-1"), Err(IdError::InvalidDigit));
    assert_eq!(parse_id("++1"), Err(IdError::InvalidDigit));
    assert_eq!(parse_id("1+"), Err(IdError::InvalidDigit));
    assert_eq!(parse_id(" 1"), Err(IdError::InvalidDigit));
    assert_eq!(parse_id("1 "), Err(IdError::InvalidDigit));
    assert_eq!(parse_id("12a"), Err(IdError::InvalidDigit));
    assert_eq!(parse_id("1.5"), Err(IdError::InvalidDigit));
    assert_eq!(parse_id("0x10"), Err(IdError::InvalidDigit));
    assert_eq!(parse_id("\u{0663}"), Err(IdError::InvalidDigit));
    assert_eq!(parse_id("\u{ff11}"), Err(IdError::InvalidDigit));
}

#[test]
fn ids_up_to_the_largest_number() {
    let max = usize::MAX.to_string();
    assert_eq!(parse_id(&max), Ok(usize::MAX));
    let mut plus = String::from("+");
    plus.push_str(&max);
    assert_eq!(parse_id(&plus), Ok(usize::MAX));
    let mut above = (usize::MAX as u128 + 1).to_string();
    assert_eq!(parse_id(&above), Err(IdError::Overflow));
    above.push('0');
    assert_eq!(parse_id(&above), Err(IdError::Overflow));
    assert_eq!(parse_id("99999999999999999999999999999999999999999"), Err(IdError::Overflow));
}

#[test]
fn the_first_fault_decides() {
    assert_eq!(parse_id("99999999999999999999999999999999x"), Err(IdError::Overflow));
    assert_eq!(parse_id("1x99999999999999999999999999999999"), Err(IdError::InvalidDigit));
}

fn as_std_reads(token: &str) -> Result<usize, IdError> {
    match token.parse::<usize>() {
        Ok(n) => Ok(n),
        Err(e) => Err(match e.kind() {
            std::num::IntErrorKind::Empty => IdError::Empty,
            std::num::IntErrorKind::InvalidDigit => IdError::InvalidDigit,
            std::num::IntErrorKind::PosOverflow => IdError::Overflow,
            other => panic!("unexpected kind {:?}", other),
        }),
    }
}

#[test]
fn ids_are_read_as_the_standard_library_reads_them() {
    let max = usize::MAX.to_string();
    let above = (usize::MAX as u128 + 1).to_string();
    let near = (usize::MAX / 10).to_string();
    let cases = [
        "", "0", "1", "9", "10", "007", "+", "-", "+0", "+12", "-12", "++1", "+-1", "1+", " 1",
        "1 ", "12a", "a12", "1_000", "1.5", "0x10", "\u{0663}", "1\u{ff11}",
        "99999999999999999999999999999999x", "1x99999999999999999999999999999999",
        "000000000000000000000000000000000000001", max.as_str(), above.as_str(), near.as_str(),
    ];
    for token in cases {
        assert_eq!(parse_id(token), as_std_reads(token), "token {:?}", token);
    }
    for last in 0..10u32 {
        let mut token = near.clone();
        token.push(char::from_digit(last, 10).unwrap());
        assert_eq!(parse_id(&token), as_std_reads(&token), "token {:?}", token);
        token.push('x');
        assert_eq!(parse_id(&token), as_std_reads(&token), "token {:?}", token);
    }
}

#[test]
fn the_reason_of_a_bad_id_is_said() {
    assert_eq!(IdError::Empty.reason(), "cannot parse integer from empty string");
    assert_eq!(IdError::InvalidDigit.reason(), "invalid digit found in string");
    assert_eq!(IdError::Overflow.reason(), "number too large to fit in target type");
    for token in ["", "x", "99999999999999999999999999999999"] {
        let said = Error::Argument(ArgumentError::InvalidId(parse_id(token).unwrap_err())).message();
        assert_eq!(said, token.parse::<usize>().unwrap_err().to_string());
    }
    assert_eq!(
        Action::build(tokens(&["prog", "delete", ""])),
        argument(ArgumentError::InvalidId(IdError::Empty))
    );
    assert_eq!(
        Action::build(tokens(&["prog", "mark-done", "99999999999999999999999999999999"])),
        argument(ArgumentError::InvalidId(IdError::Overflow))
    );
}

#[test]
fn ids_are_written_in_decimal() {
    assert_eq!(decimal(0), "0");
    assert_eq!(decimal(7), "7");
    assert_eq!(decimal(10), "10");
    assert_eq!(decimal(1905), "1905");
    assert_eq!(decimal(usize::MAX), usize::MAX.to_string());
}

#[test]
fn what_is_written_is_read_back() {
    for n in [0usize, 1, 9, 10, 11, 99, 100, 12345, usize::MAX / 10, usize::MAX - 1, usize::MAX] {
        assert_eq!(parse_id(&decimal(n)), Ok(n));
    }
}

#[test]
fn other_errors_say_what_they_hold() {
    assert_eq!(Error::NotFound(3).message(), "Task id does not exist.");
    assert_eq!(Error::Io("disk on fire".to_string()).message(), "disk on fire");
    assert_eq!(Error::Format("not json".to_string()).message(), "not json");
    assert_eq!(Command::Add.phrase(), "add task");
    assert_eq!(Command::Update.phrase(), "update task");
    assert_eq!(Command::Delete.phrase(), "delete task");
    assert_eq!(Command::MarkInProgress.phrase(), "mark task in progress");
    assert_eq!(Command::MarkDone.phrase(), "mark task done");
}
