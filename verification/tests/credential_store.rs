use mcf::cf::get_cf_home_from_mcf_environment;
use mcf::store::{prepare_plugins, DestinationState, FsAction};

fn tempdir_string() -> String {
    tempfile::tempdir()
        .unwrap()
        .keep()
        .to_str()
        .unwrap()
        .to_string()
}

#[test]
fn test_get_mcf_home() {
    let tempdir = tempdir_string();
    let base = format!("{}/mcf-lib-test", tempdir);
    let result = get_cf_home_from_mcf_environment(&String::from("envname"), &base);
    let expected = format!("{}/homes/envname", base);
    assert_eq!(result, expected);
}

#[test]
fn test_prepare_plugins_if_source_does_not_exist() {
    let tempdir = tempdir_string();
    let result = prepare_plugins(
        &String::from("envname"),
        &format!("{}/.cf", tempdir),
        &format!("{}/mcf-lib-home", tempdir),
        false,
        &DestinationState::Absent,
    );
    assert!(result.is_err());
    assert!(result
        .err()
        .unwrap()
        .message()
        .contains("source does not exist, source="));
}

#[test]
fn prepare_plugins_builds_the_missing_tree_then_links() {
    let actions = prepare_plugins(
        &String::from("envname"),
        &String::from("/home/op/.cf"),
        &String::from("/home/op/.mcf"),
        true,
        &DestinationState::Absent,
    )
    .unwrap();
    assert_eq!(actions.len(), 2);
    match &actions[0] {
        FsAction::CreateDirAll { path } => {
            assert_eq!(path, "/home/op/.mcf/homes/envname/.cf")
        }
        other => panic!("expected the parent tree first, got {:?}", other),
    }
    match &actions[1] {
        FsAction::CreateSymlink { source, destination } => {
            assert_eq!(source, "/home/op/.cf/plugins");
            assert_eq!(destination, "/home/op/.mcf/homes/envname/.cf/plugins");
        }
        other => panic!("expected the link last, got {:?}", other),
    }
}

#[test]
fn prepare_plugins_replaces_a_directory_or_file_in_the_way() {
    let for_directory = prepare_plugins(
        &String::from("envname"),
        &String::from("/home/op/.cf"),
        &String::from("/home/op/.mcf"),
        true,
        &DestinationState::Directory,
    )
    .unwrap();
    assert!(matches!(&for_directory[0], FsAction::RemoveDir { .. }));
    assert!(matches!(&for_directory[1], FsAction::CreateSymlink { .. }));

    let for_file = prepare_plugins(
        &String::from("envname"),
        &String::from("/home/op/.cf"),
        &String::from("/home/op/.mcf"),
        true,
        &DestinationState::File,
    )
    .unwrap();
    assert!(matches!(&for_file[0], FsAction::RemoveFile { .. }));
    assert!(matches!(&for_file[1], FsAction::CreateSymlink { .. }));
}

#[test]
fn preparing_twice_lands_on_the_same_link_target() {
    let source = String::from("/home/op/.cf/plugins");
    let first = prepare_plugins(
        &String::from("envname"),
        &String::from("/home/op/.cf"),
        &String::from("/home/op/.mcf"),
        true,
        &DestinationState::Absent,
    )
    .unwrap();
    let first_target = match first.last().unwrap() {
        FsAction::CreateSymlink { source, .. } => source.clone(),
        other => panic!("expected a link, got {:?}", other),
    };
    assert_eq!(first_target, source);

    // after the first pass a link to `source` stands at the destination
    let second = prepare_plugins(
        &String::from("envname"),
        &String::from("/home/op/.cf"),
        &String::from("/home/op/.mcf"),
        true,
        &DestinationState::Link { target: first_target },
    )
    .unwrap();
    assert!(matches!(&second[0], FsAction::RemoveLink { .. }));
    let second_target = match second.last().unwrap() {
        FsAction::CreateSymlink { source, .. } => source.clone(),
        other => panic!("expected a link, got {:?}", other),
    };
    assert_eq!(second_target, source);
}
