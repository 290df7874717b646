use dots::cli::Command;
use dots::error::DotsError;
use dots::session::{announcement, command_steps, confirmation, index_steps, init_steps};
use dots::session::{plan, report};
use dots::session::{Action, Session};

fn words(tokens: &[&str]) -> Vec<String> {
    tokens.iter().map(|token| token.to_string()).collect()
}

fn home() -> Option<String> {
    Some("/home/u".to_string())
}

fn open_repository() -> Action {
    Action::OpenRepository { dots: "/home/u/.dots".to_string(), workdir: "/home/u".to_string() }
}

fn create_repository() -> Action {
    Action::CreateRepository {
        dots: "/home/u/.dots".to_string(),
        key: "status.showUntrackedFiles".to_string(),
        value: "no".to_string(),
    }
}

/// Runs a session to its end with every action succeeding.
fn run_through(mut session: Session) -> Vec<Action> {
    let mut seen = Vec::new();
    while let Some(action) = session.pending() {
        seen.push(action.clone());
        session.advance(Ok(()));
    }
    seen
}

#[test]
fn init_creates_the_repository_and_confirms() {
    let session = Session::open("dots", &words(&["init"]), home());
    assert_eq!(
        run_through(session),
        vec![
            create_repository(),
            Action::Print("initialised new bare dotfiles-reop at \"/home/u/.dots\"".to_string()),
        ]
    );
}

#[test]
fn init_twice_plans_the_same_steps() {
    let first = run_through(Session::open("dots", &words(&["init"]), home()));
    let second = run_through(Session::open("dots", &words(&["init"]), home()));
    assert_eq!(first, second);
    assert_eq!(first[0], create_repository());
}

#[test]
fn add_opens_stages_and_writes() {
    let session = Session::open("dots", &words(&["add", "/home/u/.bashrc"]), home());
    assert_eq!(
        run_through(session),
        vec![open_repository(), Action::AddPath(".bashrc".to_string()), Action::WriteIndex]
    );
}

#[test]
fn remove_opens_unstages_and_writes() {
    let session = Session::open("dots", &words(&["remove", "/home/u/.bashrc"]), home());
    assert_eq!(
        run_through(session),
        vec![open_repository(), Action::RemovePath(".bashrc".to_string()), Action::WriteIndex]
    );
}

#[test]
fn add_then_remove_name_the_same_entry() {
    let added = run_through(Session::open("dots", &words(&["add", "/home/u/.vimrc"]), home()));
    let removed = run_through(Session::open("dots", &words(&["remove", "/home/u/.vimrc"]), home()));
    assert_eq!(added[1], Action::AddPath(".vimrc".to_string()));
    assert_eq!(removed[1], Action::RemovePath(".vimrc".to_string()));
    assert_eq!(added[2], Action::WriteIndex);
    assert_eq!(removed[2], Action::WriteIndex);
}

#[test]
fn add_outside_home_stages_the_path_as_given() {
    let session = Session::open("dots", &words(&["add", "/etc/hosts"]), home());
    assert_eq!(
        run_through(session),
        vec![open_repository(), Action::AddPath("/etc/hosts".to_string()), Action::WriteIndex]
    );
}

#[test]
fn remove_outside_home_names_the_path_as_given() {
    let session = Session::open("dots", &words(&["remove", "/etc/hosts"]), home());
    assert_eq!(
        run_through(session),
        vec![open_repository(), Action::RemovePath("/etc/hosts".to_string()), Action::WriteIndex]
    );
}

#[test]
fn add_of_a_relative_path_stages_it_as_given() {
    let session = Session::open("dots", &words(&["add", "notes.txt"]), home());
    assert_eq!(
        run_through(session),
        vec![open_repository(), Action::AddPath("notes.txt".to_string()), Action::WriteIndex]
    );
}

#[test]
fn help_prints_the_usage_and_nothing_else() {
    let session = Session::open("dots", &words(&["--help"]), None);
    assert_eq!(
        run_through(session),
        vec![Action::Print(
            "Usage: dots [options] command\n\nOptions:\n    -h, --help          print this help\n"
                .to_string()
        )]
    );
}

#[test]
fn invalid_command_is_printed() {
    let session = Session::open("dots", &words(&["frob"]), home());
    assert_eq!(run_through(session), vec![Action::Print("invalid command: frob".to_string())]);
}

#[test]
fn missing_command_aborts() {
    let session = Session::open("dots", &words(&[]), home());
    assert_eq!(
        session.pending(),
        Some(&Action::Abort("must provide command to run".to_string()))
    );
}

#[test]
fn missing_file_aborts() {
    let session = Session::open("dots", &words(&["remove"]), home());
    assert_eq!(
        session.pending(),
        Some(&Action::Abort("missing file argument for command: remove".to_string()))
    );
}

#[test]
fn malformed_option_aborts() {
    let session = Session::open("dots", &words(&["--nope"]), home());
    assert_eq!(
        session.pending(),
        Some(&Action::Abort("Unrecognized option: 'nope'".to_string()))
    );
}

#[test]
fn missing_home_is_printed_for_every_command() {
    for args in [words(&["init"]), words(&["add", "f"]), words(&["remove", "f"])] {
        let session = Session::open("dots", &args, None);
        assert_eq!(
            run_through(session),
            vec![Action::Print("unable to get home directory".to_string())]
        );
    }
}

#[test]
fn invalid_command_is_reported_without_a_home() {
    let session = Session::open("dots", &words(&["frob"]), None);
    assert_eq!(run_through(session), vec![Action::Print("invalid command: frob".to_string())]);
}

#[test]
fn failure_to_open_ends_the_run_with_its_text() {
    let mut session = Session::open("dots", &words(&["add", "/home/u/.bashrc"]), home());
    assert_eq!(session.pending(), Some(&open_repository()));
    session.advance(Err(DotsError::RepositoryError("could not find repository".to_string())));
    assert_eq!(session.pending(), Some(&Action::Print("could not find repository".to_string())));
    session.advance(Ok(()));
    assert_eq!(session.pending(), None);
    assert!(session.is_finished());
}

#[test]
fn failed_remove_is_not_followed_by_a_write() {
    let mut session = Session::open("dots", &words(&["remove", "/home/u/.bashrc"]), home());
    session.advance(Ok(()));
    assert_eq!(session.pending(), Some(&Action::RemovePath(".bashrc".to_string())));
    session.advance(Err(DotsError::RepositoryError("not in the index".to_string())));
    let rest = run_through(session);
    assert_eq!(rest, vec![Action::Print("not in the index".to_string())]);
    assert!(!rest.contains(&Action::WriteIndex));
}

#[test]
fn failed_add_is_not_followed_by_a_write() {
    let mut session = Session::open("dots", &words(&["add", "/home/u/missing"]), home());
    session.advance(Ok(()));
    session.advance(Err(DotsError::RepositoryError("no such file".to_string())));
    assert_eq!(run_through(session), vec![Action::Print("no such file".to_string())]);
}

#[test]
fn failed_write_is_reported() {
    let mut session = Session::open("dots", &words(&["add", "/home/u/.bashrc"]), home());
    session.advance(Ok(()));
    session.advance(Ok(()));
    assert_eq!(session.pending(), Some(&Action::WriteIndex));
    session.advance(Err(DotsError::RepositoryError("index is locked".to_string())));
    assert_eq!(run_through(session), vec![Action::Print("index is locked".to_string())]);
}

#[test]
fn failed_creation_skips_the_confirmation() {
    let mut session = Session::open("dots", &words(&["init"]), home());
    session.advance(Err(DotsError::FilesystemError("read-only file system".to_string())));
    assert_eq!(run_through(session), vec![Action::Print("read-only file system".to_string())]);
}

#[test]
fn a_failure_that_aborts_is_reported_as_an_abort() {
    let mut session = Session::new(vec![Action::WriteIndex]);
    session.advance(Err(DotsError::MissingCommand));
    assert_eq!(
        session.pending(),
        Some(&Action::Abort("must provide command to run".to_string()))
    );
}

#[test]
fn printing_cannot_fail() {
    let mut session = Session::new(vec![Action::Print("a".to_string()), Action::WriteIndex]);
    session.advance(Err(DotsError::FilesystemError("broken pipe".to_string())));
    assert_eq!(session.pending(), Some(&Action::WriteIndex));
    assert!(!Action::Print("a".to_string()).can_fail());
    assert!(!Action::Abort("a".to_string()).can_fail());
    assert!(Action::WriteIndex.can_fail());
    assert!(Action::AddPath("a".to_string()).can_fail());
    assert!(Action::RemovePath("a".to_string()).can_fail());
    assert!(open_repository().can_fail());
    assert!(create_repository().can_fail());
}

#[test]
fn a_finished_session_stays_finished() {
    let mut session = Session::new(Vec::new());
    assert!(session.is_finished());
    assert_eq!(session.pending(), None);
    session.advance(Ok(()));
    assert!(session.is_finished());
    session.advance(Err(DotsError::RepositoryError("late".to_string())));
    assert!(session.is_finished());
    assert_eq!(session.pending(), None);
}

#[test]
fn start_reports_an_invalid_command_whatever_the_environment() {
    let session = Session::start("dots", &words(&["frob"]));
    assert_eq!(run_through(session), vec![Action::Print("invalid command: frob".to_string())]);
}

#[test]
fn start_plans_init_from_the_environment() {
    let session = Session::start("dots", &words(&["init"]));
    let steps = run_through(session);
    match &steps[0] {
        Action::CreateRepository { dots, key, value } => {
            assert!(dots.ends_with(".dots"));
            assert_eq!(key, "status.showUntrackedFiles");
            assert_eq!(value, "no");
            assert_eq!(steps.len(), 2);
        }
        other => {
            assert_eq!(other, &Action::Print("unable to get home directory".to_string()));
            assert_eq!(steps.len(), 1);
        }
    }
}

#[test]
fn confirmation_quotes_the_path() {
    assert_eq!(
        confirmation("/home/u/.dots"),
        "initialised new bare dotfiles-reop at \"/home/u/.dots\""
    );
    assert_eq!(
        confirmation("/home/a \"b\"/.dots"),
        "initialised new bare dotfiles-reop at \"/home/a \\\"b\\\"/.dots\""
    );
}

#[test]
fn announcement_puts_the_quoted_path_after_the_fixed_text() {
    assert_eq!(announcement("\"/srv/.dots\""), "initialised new bare dotfiles-reop at \"/srv/.dots\"");
    assert_eq!(announcement(""), "initialised new bare dotfiles-reop at ");
}

#[test]
fn report_prints_or_aborts() {
    assert_eq!(
        report(&DotsError::InvalidCommand("x".to_string())),
        vec![Action::Print("invalid command: x".to_string())]
    );
    assert_eq!(
        report(&DotsError::InvalidOption("bad".to_string())),
        vec![Action::Abort("bad".to_string())]
    );
}

#[test]
fn init_steps_set_the_untracked_files_option() {
    assert_eq!(
        init_steps("/srv/.dots".to_string(), "done".to_string()),
        vec![
            Action::CreateRepository {
                dots: "/srv/.dots".to_string(),
                key: "status.showUntrackedFiles".to_string(),
                value: "no".to_string(),
            },
            Action::Print("done".to_string()),
        ]
    );
}

#[test]
fn index_steps_put_the_change_between_open_and_write() {
    assert_eq!(
        index_steps("d".to_string(), "h".to_string(), Action::RemovePath("f".to_string())),
        vec![
            Action::OpenRepository { dots: "d".to_string(), workdir: "h".to_string() },
            Action::RemovePath("f".to_string()),
            Action::WriteIndex,
        ]
    );
}

#[test]
fn command_steps_follow_the_command() {
    assert_eq!(
        command_steps(&Command::Add("/home/u/x/y".to_string()), "/home/u"),
        vec![open_repository(), Action::AddPath("x/y".to_string()), Action::WriteIndex]
    );
    assert_eq!(command_steps(&Command::Init, "/home/u")[0], create_repository());
}

#[test]
fn plan_without_home_is_only_the_report() {
    assert_eq!(
        plan(&Command::Init, None),
        vec![Action::Print("unable to get home directory".to_string())]
    );
    assert_eq!(plan(&Command::Init, home()).len(), 2);
}
