use ztl::commands::{dispatch, init_zettelkasten, Command};
use ztl::config::Config;
use ztl::error::{Collision, ZtlError};
use ztl::paths::index_path;
use ztl::text::join;

#[test]
fn init_is_dispatched_with_its_root() {
    match dispatch("init", Some(String::from("/tmp/zk")), vec![]) {
        Ok(Command::Init { root_path }) => assert_eq!(root_path, "/tmp/zk"),
        other => panic!("not init: {:?}", other),
    }
}

#[test]
fn new_is_dispatched_with_name_and_tags() {
    let tags = vec![String::from("draft"), String::from("idea")];
    match dispatch("new", Some(String::from("My First Note")), tags) {
        Ok(Command::New { name, tags }) => {
            assert_eq!(name, "My First Note");
            assert_eq!(tags, ["draft", "idea"]);
        }
        other => panic!("not new: {:?}", other),
    }
}

#[test]
fn other_subcommands_are_not_recognised() {
    for name in ["", "help", "Init", "new ", "initialize"] {
        match dispatch(name, None, vec![]) {
            Err(ZtlError::UnrecognizedCommand) => {}
            other => panic!("recognised {:?}: {:?}", name, other),
        }
    }
}

#[test]
fn an_existing_root_is_refused() {
    match init_zettelkasten("/tmp/zk", true) {
        Err(ZtlError::PathAlreadyExists(Collision::Root, path)) => assert_eq!(path, "/tmp/zk"),
        other => panic!("not refused: {:?}", other),
    }
}

#[test]
fn a_new_root_is_to_be_created() {
    assert_eq!(init_zettelkasten("/tmp/zk", false).unwrap(), "/tmp/zk");
}

#[test]
fn config_starts_with_an_empty_root() {
    assert_eq!(Config::default().zettelkasten_root, "");
}

#[test]
fn config_holds_the_root_given() {
    assert_eq!(Config::init("/tmp/zk").zettelkasten_root, "/tmp/zk");
    assert_eq!(Config::init("notes/zk").zettelkasten_root, "notes/zk");
}

#[test]
fn index_path_is_below_the_root() {
    assert_eq!(index_path("/tmp/zk"), "/tmp/zk/index.adoc");
    assert_eq!(index_path("zk"), "zk/index.adoc");
}

#[test]
fn join_puts_the_separator_between() {
    let parts = vec![String::from("a"), String::from(""), String::from("c")];
    assert_eq!(join(&parts, ", "), "a, , c");
    assert_eq!(join(&parts, ""), "ac");
    assert_eq!(join(&vec![], ", "), "");
    assert_eq!(join(&vec![String::from("solo")], ", "), "solo");
}

#[test]
fn each_error_has_its_message() {
    assert_eq!(
        ZtlError::ConfigUnreadable(String::from("bad TOML")).message(),
        "Unable to open config file because bad TOML"
    );
    assert_eq!(
        ZtlError::ConfigUnwritable(String::from("disk full")).message(),
        "Unable to save config file because disk full"
    );
    assert_eq!(
        ZtlError::PathAlreadyExists(Collision::Root, String::from("/tmp/zk")).message(),
        "Unable to initialize new zettelkasten because /tmp/zk already exists"
    );
    assert_eq!(
        ZtlError::PathAlreadyExists(Collision::Note, String::from("/tmp/zk/a.adoc")).message(),
        "Refusing to create /tmp/zk/a.adoc because it already exists"
    );
    assert_eq!(
        ZtlError::PathCreationFailure(String::from("permission denied")).message(),
        "Unable to initialize a new zettelkasten: permission denied"
    );
    assert_eq!(
        ZtlError::IndexAppendFailure(String::from("no such file")).message(),
        "Unable to add the zettel to the index: no such file"
    );
    assert_eq!(ZtlError::UnrecognizedCommand.message(), "Unrecognized subcommand, try 'help'");
}

#[test]
fn refusals_carry_their_message() {
    let refused = init_zettelkasten("/tmp/zk", true).unwrap_err();
    assert_eq!(
        refused.message(),
        "Unable to initialize new zettelkasten because /tmp/zk already exists"
    );
    let config = Config::init("/tmp/zk");
    let zettel = ztl::zettel::Zettel::new("Panda", vec![]);
    let refused = zettel.render_to_file(&config, true).unwrap_err();
    assert_eq!(
        refused.message(),
        "Refusing to create /tmp/zk/panda.adoc because it already exists"
    );
}

#[test]
fn a_new_note_is_planned_in_full() {
    let config = Config::init("/tmp/zk");
    let zettel = ztl::zettel::Zettel::new("My First Note", vec![String::from("draft")]);
    let plan = ztl::commands::new_zettel(&zettel, &config, false).unwrap();
    assert_eq!(plan.write.path, "/tmp/zk/my-first-note.adoc");
    assert_eq!(plan.write.content, zettel.render());
    assert_eq!(plan.append.path, "/tmp/zk/index.adoc");
    assert_eq!(plan.append.line, ". <<my-first-note.adoc, My First Note>>\n");
}

#[test]
fn a_note_that_exists_leaves_nothing_to_do() {
    let config = Config::init("/tmp/zk");
    let zettel = ztl::zettel::Zettel::new("My First Note", vec![]);
    match ztl::commands::new_zettel(&zettel, &config, true) {
        Err(ZtlError::PathAlreadyExists(Collision::Note, path)) => {
            assert_eq!(path, "/tmp/zk/my-first-note.adoc")
        }
        other => panic!("not refused: {:?}", other),
    }
}
