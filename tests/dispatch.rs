use dynerr::carrier::{dynerr, DynResult, ErasedError};
use dynerr::dispatch::{dispatch, select_arm, select_group, Group, Outcome};

const THIS_ERROR: u64 = 1;
const THAT_ERROR: u64 = 2;
const IO_ERROR: u64 = 3;

#[derive(Debug, Clone, PartialEq)]
enum AppError {
    ThisError(u32),
    ThatError(u32),
    NotFound,
    PermissionDenied,
}

fn example(x: u32) -> DynResult<u32, AppError> {
    match x {
        1 => Ok(x),
        2..=4 => dynerr(THIS_ERROR, AppError::ThisError(x), format!("ExampleError1::ThisError: {}", x)),
        5..=10 => dynerr(THAT_ERROR, AppError::ThatError(x), format!("ExampleError2::ThatError: {}", x)),
        _ => dynerr(IO_ERROR, AppError::NotFound, String::from("No such file or directory")),
    }
}

fn example_groups() -> Vec<Group> {
    vec![
        Group { tag: THIS_ERROR, arms: 1 },
        Group { tag: THAT_ERROR, arms: 2 },
        Group { tag: IO_ERROR, arms: 1 },
    ]
}

fn example_arms(g: usize, a: usize, v: &AppError) -> bool {
    match (g, a, v) {
        (0, 0, AppError::ThisError(2)) => true,
        (1, 0, AppError::ThatError(8)) => true,
        (1, 1, AppError::ThatError(9..=11)) => true,
        (2, 0, e) => *e == AppError::NotFound,
        _ => false,
    }
}

fn handle(x: u32) -> Result<u32, String> {
    match example(x) {
        Ok(i) => Ok(i),
        Err(e) => match dispatch(&e, &example_groups(), &example_arms) {
            Outcome::Arm { group: 0, arm: 0 } => Err(String::from("it was 2!")),
            Outcome::Arm { group: 1, arm: 0 } => Err(String::from("it was 8!")),
            Outcome::Arm { group: 1, arm: 1 } => Ok(10),
            Outcome::Arm { group: 2, arm: 0 } => Ok(5),
            _ => Err(e.text().to_string()),
        },
    }
}

#[test]
fn example_dispatch() {
    assert_eq!(handle(20), Ok(5));
    assert_eq!(handle(11), Ok(5));
    assert_eq!(handle(1), Ok(1));
    assert_eq!(handle(2), Err(String::from("it was 2!")));
    assert_eq!(handle(8), Err(String::from("it was 8!")));
    assert_eq!(handle(9), Ok(10));
    assert_eq!(handle(10), Ok(10));
    assert_eq!(handle(3), Err(String::from("ExampleError1::ThisError: 3")));
    assert_eq!(handle(7), Err(String::from("ExampleError2::ThatError: 7")));
}

#[test]
fn example_outcomes() {
    let groups = example_groups();
    let e = example(20).unwrap_err();
    assert_eq!(dispatch(&e, &groups, &example_arms), Outcome::Arm { group: 2, arm: 0 });
    let e = example(3).unwrap_err();
    assert_eq!(dispatch(&e, &groups, &example_arms), Outcome::GroupFallback { group: 0 });
    let e = example(9).unwrap_err();
    assert_eq!(dispatch(&e, &groups, &example_arms), Outcome::Arm { group: 1, arm: 1 });
    let e = ErasedError::wrap(IO_ERROR, AppError::PermissionDenied, String::from("denied"));
    assert_eq!(dispatch(&e, &groups, &example_arms), Outcome::GroupFallback { group: 2 });
}

#[test]
fn invalid_input_code_four_runs_its_arm() {
    const INVALID_INPUT: u64 = 40;
    let e = ErasedError::wrap(INVALID_INPUT, 4u32, String::from("InvalidInput(code=4)"));
    let groups = vec![Group { tag: INVALID_INPUT, arms: 1 }];
    let arms = |g: usize, a: usize, code: &u32| g == 0 && a == 0 && *code == 4;
    let o = dispatch(&e, &groups, &arms);
    assert_eq!(o, Outcome::Arm { group: 0, arm: 0 });
    assert_ne!(o, Outcome::CatchAll);
}

#[test]
fn undeclared_type_runs_catch_all() {
    let e = ErasedError::wrap(99, AppError::NotFound, String::from("other"));
    assert_eq!(dispatch(&e, &example_groups(), &example_arms), Outcome::CatchAll);
    assert_eq!(dispatch(&e, &Vec::new(), &example_arms), Outcome::CatchAll);
}

#[test]
fn first_declared_group_wins() {
    let groups = vec![
        Group { tag: 5, arms: 0 },
        Group { tag: 7, arms: 1 },
        Group { tag: 7, arms: 1 },
    ];
    let e = ErasedError::wrap(7, 0u8, String::new());
    let always = |_g: usize, _a: usize, _v: &u8| true;
    assert_eq!(dispatch(&e, &groups, &always), Outcome::Arm { group: 1, arm: 0 });
    let never = |_g: usize, _a: usize, _v: &u8| false;
    assert_eq!(dispatch(&e, &groups, &never), Outcome::GroupFallback { group: 1 });
    assert_eq!(select_group(7, &groups), Some(1));
    assert_eq!(select_group(5, &groups), Some(0));
    assert_eq!(select_group(6, &groups), None);
}

#[test]
fn first_matching_arm_wins() {
    let from_two = |_g: usize, a: usize, v: &u32| a >= 2 && *v == 1;
    assert_eq!(select_arm(&from_two, 0, 5, &1), Some(2));
    assert_eq!(select_arm(&from_two, 0, 2, &1), None);
    assert_eq!(select_arm(&from_two, 0, 5, &0), None);
    assert_eq!(select_arm(&from_two, 0, 0, &1), None);
}

#[test]
fn wrapped_value_is_recovered() {
    let e = ErasedError::wrap(THAT_ERROR, AppError::ThatError(6), String::from("six"));
    assert_eq!(e.tag(), THAT_ERROR);
    assert_eq!(e.text(), "six");
    assert_eq!(e.downcast(THAT_ERROR), Some(&AppError::ThatError(6)));
    assert_eq!(e.downcast(THIS_ERROR), None);
    let (tag, value, text) = e.into_parts();
    assert_eq!((tag, value, text), (THAT_ERROR, AppError::ThatError(6), String::from("six")));
}
