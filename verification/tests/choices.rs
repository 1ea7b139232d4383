//! The installer's choices.

use gnosis_vpn_update::update::choices::{
    choice_dict, choice_from_file, network_from_symlink, InstallerChoices,
};
use gnosis_vpn_update::update::records::{choice_changes_file, write_choice_changes};

#[test]
fn detects_network_from_config_symlink_over_choice_file() {
    let choices = InstallerChoices::detect_from(
        Some("rotsee.toml"),
        Some("INSTALLER_CHOICE_NETWORK=\"jura\"\n"),
        None,
    );
    assert_eq!(choices.network.as_deref(), Some("rotsee"));
    assert_eq!(choices.loglevel, None);
}

#[test]
fn falls_back_to_choice_file_without_symlink() {
    let choices = InstallerChoices::detect_from(
        None,
        Some("INSTALLER_CHOICE_NETWORK=\"rotsee\"\n"),
        Some("INSTALLER_CHOICE_LOGLEVEL=info\n"),
    );
    assert_eq!(choices.network.as_deref(), Some("rotsee"));
    assert_eq!(choices.loglevel.as_deref(), Some("info"));
}

#[test]
fn regular_file_config_is_not_treated_as_symlink() {
    // A regular file has no target.
    let choices = InstallerChoices::detect_from(None, None, None);
    assert_eq!(choices, InstallerChoices::default());
}

#[test]
fn rejects_unknown_choice_values() {
    let choices = InstallerChoices::detect_from(
        Some("custom.toml"),
        Some("INSTALLER_CHOICE_NETWORK=\"devnet\"\n"),
        Some("INSTALLER_CHOICE_LOGLEVEL=\"trace\"\n"),
    );
    assert_eq!(choices, InstallerChoices::default());
}

#[test]
fn unknown_link_falls_back_to_the_record() {
    let choices = InstallerChoices::detect_from(
        Some("custom.toml"),
        Some("INSTALLER_CHOICE_NETWORK=\"rotsee\"\n"),
        None,
    );
    assert_eq!(choices.network.as_deref(), Some("rotsee"));
}

#[test]
fn network_is_the_stem_of_the_link_target() {
    assert_eq!(network_from_symlink("rotsee.toml").as_deref(), Some("rotsee"));
    assert_eq!(network_from_symlink("/etc/gnosisvpn/jura.toml").as_deref(), Some("jura"));
    assert_eq!(network_from_symlink("a/b.c.toml").as_deref(), Some("b.c"));
    assert_eq!(network_from_symlink("jura").as_deref(), Some("jura"));
    assert_eq!(network_from_symlink(".toml").as_deref(), Some(".toml"));
    assert_eq!(network_from_symlink("a/jura.toml/").as_deref(), Some("jura"));
    assert_eq!(network_from_symlink("a/jura.toml/.").as_deref(), Some("jura"));
    assert_eq!(network_from_symlink("a/.."), None);
    assert_eq!(network_from_symlink("/"), None);
    assert_eq!(network_from_symlink(""), None);
    for path in ["rotsee.toml", "/x/y.tar.gz", ".hidden", "a/", "a/..", "..", ".", "/", "x."] {
        let stem = std::path::Path::new(path).file_stem().map(|s| s.to_str().unwrap());
        assert_eq!(network_from_symlink(path).as_deref(), stem, "path={path}");
    }
}

#[test]
fn choice_changes_xml_deselects_default_before_selecting_pin() {
    let choices = InstallerChoices { network: Some("rotsee".into()), loglevel: Some("info".into()) };
    let xml = choices.to_choice_changes_xml().expect("xml");

    // Each group: the non-pinned member is deselected before the pinned
    // one is selected (required by the exclusiveEnabled JS).
    let jura_off = xml.find("<string>jura</string>").expect("jura entry");
    let rotsee_on = xml.find("<string>rotsee</string>").expect("rotsee entry");
    assert!(jura_off < rotsee_on);
    let debug_off = xml.find("<string>debug</string>").expect("debug entry");
    let info_on = xml.find("<string>info</string>").expect("info entry");
    assert!(debug_off < info_on);

    // Exactly one selection per group is turned on.
    assert_eq!(xml.matches("<integer>1</integer>").count(), 2);
    assert_eq!(xml.matches("<integer>0</integer>").count(), 2);
}

#[test]
fn choice_changes_xml_skips_undetected_groups() {
    let choices = InstallerChoices { network: Some("jura".into()), loglevel: None };
    let xml = choices.to_choice_changes_xml().expect("xml");
    assert!(xml.contains("<string>jura</string>"));
    assert!(!xml.contains("info"));
    assert!(!xml.contains("debug"));

    assert_eq!(InstallerChoices::default().to_choice_changes_xml(), None);
}

#[test]
fn choice_changes_xml_is_a_property_list() {
    let choices = InstallerChoices { network: None, loglevel: Some("debug".into()) };
    let entry = "  <dict>\n    <key>choiceIdentifier</key>\n    <string>info</string>\n    <key>choiceAttribute</key>\n    <string>selected</string>\n    <key>attributeSetting</key>\n    <integer>0</integer>\n  </dict>\n";
    assert_eq!(choice_dict("info", false), entry);
    let head = "<?xml version=\"1.0\" encoding=\"UTF-8\"?>\n<!DOCTYPE plist PUBLIC \"-//Apple//DTD PLIST 1.0//EN\" \"http://www.apple.com/DTDs/PropertyList-1.0.dtd\">\n<plist version=\"1.0\">\n<array>\n";
    assert_eq!(
        choices.to_choice_changes_xml().unwrap(),
        format!("{head}{entry}{}</array>\n</plist>\n", choice_dict("debug", true))
    );
}

#[test]
fn choice_file_parsing_handles_quoting_and_garbage() {
    let key = "INSTALLER_CHOICE_NETWORK";
    assert_eq!(
        choice_from_file("INSTALLER_CHOICE_NETWORK=\"rotsee\"\n", key).as_deref(),
        Some("rotsee")
    );
    assert_eq!(choice_from_file("INSTALLER_CHOICE_NETWORK=jura\n", key).as_deref(), Some("jura"));
    assert_eq!(choice_from_file("SOMETHING_ELSE=\"rotsee\"\n", key), None);
    assert_eq!(choice_from_file("INSTALLER_CHOICE_NETWORK=\"\"\n", key), None);
    // The first line that gives a value counts.
    assert_eq!(
        choice_from_file("# x\n INSTALLER_CHOICE_NETWORK='jura' \nINSTALLER_CHOICE_NETWORK=rotsee", key)
            .as_deref(),
        Some("jura")
    );
    assert_eq!(choice_from_file("", key), None);
}

#[test]
fn write_choice_changes_writes_xml_and_returns_its_path() {
    let installed =
        InstallerChoices { network: Some("rotsee".to_string()), loglevel: Some("info".to_string()) };
    let (path, xml) = choice_changes_file(&installed, "/tmp/updates").unwrap();
    assert_eq!(path, "/tmp/updates/choice_changes.xml");
    assert!(xml.contains("rotsee"));
    assert_eq!(write_choice_changes(Some(path.clone()), Ok(())), Ok(Some(path)));
}

#[test]
fn write_choice_changes_is_none_without_installed_selection_and_errs_on_bad_dir() {
    let no_selection = InstallerChoices::default();
    assert_eq!(choice_changes_file(&no_selection, "/tmp"), None);
    assert_eq!(write_choice_changes(None, Ok(())), Ok(None));

    let installed = InstallerChoices { network: Some("rotsee".to_string()), loglevel: None };
    let (path, _) = choice_changes_file(&installed, "/tmp/missing").unwrap();
    let err = write_choice_changes(Some(path), Err("No such file or directory".into())).unwrap_err();
    assert!(err.contains("cannot write installer choice changes"));
    assert_eq!(err, "cannot write installer choice changes: No such file or directory");
}
