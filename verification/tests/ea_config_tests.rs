use seeder::actions::ea_config::{newest_config_file, rewrite_launch_options, ConfigFile, NewestConfig};
use seeder::structs::Games;

fn file(name: &str, time: u64, location: Option<&str>) -> ConfigFile {
    ConfigFile { file_name: name.to_string(), time, location: location.map(|l| l.to_string()) }
}

#[test]
fn newest_user_configuration() {
    let files = vec![
        file("user_1.ini", 10, Some("a")),
        file("settings.ini", 50, Some("b")),
        file("user_2.ini", 30, Some("c")),
        file("user_3.ini", 30, Some("d")),
        file("user_4.ini", 40, None),
        file("user_5.txt", 60, Some("e")),
    ];
    match newest_config_file(&files) {
        NewestConfig::Found { file } => {
            assert_eq!(file.file_name, "user_2.ini");
            assert_eq!(file.time, 30);
            assert_eq!(file.location, "c");
        }
        _ => panic!("expected a configuration"),
    }
    assert!(matches!(newest_config_file(&vec![file("other.ini", 5, Some("x"))]), NewestConfig::Missing));
    assert!(matches!(newest_config_file(&vec![]), NewestConfig::Missing));
    assert!(matches!(newest_config_file(&vec![file("user_0.ini", 0, Some("x"))]), NewestConfig::Missing));
}

fn pairs(p: &[(&str, &str)]) -> Vec<(String, String)> {
    p.iter().map(|(k, v)| (k.to_string(), v.to_string())).collect()
}

fn section(p: &[(&str, &str)]) -> ini::Properties {
    let mut s = ini::Properties::new();
    for (k, v) in p {
        s.append(*k, *v);
    }
    s
}

fn entries(p: &ini::Properties) -> Vec<(String, String)> {
    p.iter().map(|(k, v)| (k.to_string(), v.to_string())).collect()
}

#[test]
fn launch_options_rewrite() {
    let old = section(&[
        ("user.locale", "en"),
        ("user.gamecommandline.origin.ofr.50.0000557", "old settings"),
        ("user.theme", "dark"),
    ]);
    let versions = Games::Bf1.game_versions();
    let new = rewrite_launch_options(&old, &versions, "-gameId 1");
    let mut expected = pairs(&[
        ("user.gamecommandline.origin.ofr.50.0002683", ""),
        ("user.locale", "en"),
        ("user.theme", "dark"),
    ]);
    for v in &versions {
        expected.push((v.to_string(), "-gameId 1".to_string()));
    }
    assert_eq!(entries(&new), expected);
    let cleared = entries(&rewrite_launch_options(&new, &versions, ""));
    assert_eq!(cleared.len(), 3 + versions.len());
    assert_eq!(cleared[0], ("user.gamecommandline.origin.ofr.50.0002683".to_string(), String::new()));
    assert!(cleared.iter().skip(3).all(|(_, v)| v.is_empty()));
}

#[test]
fn launch_options_rewrite_bf4() {
    let old = section(&[
        ("user.gamecommandline.origin.ofr.50.0002683", "x"),
        ("user.a", "1"),
        ("user.a", "2"),
    ]);
    let versions = Games::Bf4.game_versions();
    let new = rewrite_launch_options(&old, &versions, "s");
    let mut expected = pairs(&[("user.a", "2")]);
    for v in &versions {
        expected.push((v.to_string(), "s".to_string()));
    }
    assert_eq!(entries(&new), expected);
}
