use ufc::cli::{select_table, supported_commands, Table};
use ufc::color::Colors;
use ufc::registry::{build_palettes, RuleSource};

#[test]
fn every_table_compiles() {
    let tables = [
        Table::Df,
        Table::Dig,
        Table::Du,
        Table::Env,
        Table::Fdisk,
        Table::Findmnt,
        Table::Free,
        Table::Id,
        Table::Ifconfig,
        Table::Journalctl,
        Table::Ping,
        Table::Top,
        Table::Docker,
        Table::DockerPs,
        Table::DockerImages,
        Table::Universal,
    ];
    for t in tables.iter() {
        let rules = t.rules();
        let built = build_palettes(&rules);
        assert!(built.is_ok(), "{:?}", t);
        assert_eq!(built.unwrap().len(), rules.len());
    }
}

#[test]
fn table_selection() {
    assert_eq!(select_table("ping", None, false), Some(Table::Ping));
    assert_eq!(select_table("docker", Some("ps"), false), Some(Table::DockerPs));
    assert_eq!(select_table("docker", Some("images"), false), Some(Table::DockerImages));
    assert_eq!(select_table("docker", Some("run"), false), Some(Table::Docker));
    assert_eq!(select_table("lsblk", None, false), None);
    assert_eq!(select_table("lsblk", None, true), Some(Table::Universal));
}

#[test]
fn supported_commands_have_tables() {
    let cmds = supported_commands();
    assert_eq!(cmds.len(), 12);
    for c in cmds.iter() {
        assert!(select_table(c, None, false).is_some());
    }
}

#[test]
fn alias_lines() {
    let cmds = vec!["df", "ping"];
    assert_eq!(ufc::cli::alias::Cmd::gen(&cmds), "alias df='ufc df'\nalias ping='ufc ping'");
    assert_eq!(ufc::cli::ualias::Cmd::gen(&cmds), "alias udf='ufc df'\nalias uping='ufc ping'");
    assert_eq!(ufc::cli::alias::Cmd::gen(&vec![]), "");
}

#[test]
fn bad_table_reports_its_pattern() {
    let rules = vec![
        RuleSource { pattern: "ok", colors: vec![Colors::Red] },
        RuleSource { pattern: "(bad", colors: vec![Colors::Red] },
    ];
    let e = build_palettes(&rules).err().unwrap();
    assert_eq!(e.pattern, "(bad");
}
