use sf_tools::player::{filter_page, retains, PlayerInfo, PlayerRecord};

fn rec(name: &str, level: u32, guild: Option<&str>) -> PlayerRecord {
    PlayerRecord { name: name.to_string(), level, guild: guild.map(|g| g.to_string()) }
}

#[test]
fn retention_depends_on_guild_absence_alone() {
    assert!(retains(&rec("Ann", 1, None), None));
    assert!(!retains(&rec("Bob", 500, Some("Guild")), None));
}

#[test]
fn retention_with_threshold_requires_strictly_higher_level() {
    assert!(!retains(&rec("AtCap", 100, None), Some(100)));
    assert!(retains(&rec("Above", 101, None), Some(100)));
    assert!(!retains(&rec("Guilded", 200, Some("G")), Some(100)));
}

#[test]
fn retained_records_keep_exact_name_and_level() {
    let page = vec![
        rec("Ann", 120, None),
        rec("Bob", 95, Some("Guild")),
        rec("Cyn", 7, None),
    ];
    let mut out: Vec<PlayerInfo> = Vec::new();
    filter_page(&page, None, &mut out);
    assert_eq!(
        out,
        vec![
            PlayerInfo { name: "Ann".to_string(), level: 120 },
            PlayerInfo { name: "Cyn".to_string(), level: 7 },
        ]
    );
}

#[test]
fn filtering_appends_after_earlier_results() {
    let mut out = vec![PlayerInfo { name: "Kept".to_string(), level: 1 }];
    let page = vec![rec("New", 2, None)];
    filter_page(&page, None, &mut out);
    assert_eq!(out.len(), 2);
    assert_eq!(out[0].name, "Kept");
    assert_eq!(out[1].name, "New");
}

#[test]
fn an_empty_page_contributes_nothing() {
    let page: Vec<PlayerRecord> = Vec::new();
    let mut out: Vec<PlayerInfo> = Vec::new();
    filter_page(&page, Some(100), &mut out);
    assert!(out.is_empty());
}
