use voicevox_rs::client::{Feat, Speaker, Style, VVClient};
use voicevox_rs::registry::SpeakerRegistry;

fn speaker(name: &str, styles: &[(i32, &str)]) -> Speaker {
    Speaker {
        name: name.to_string(),
        speaker_uuid: format!("uuid-{}", name),
        styles: styles.iter().map(|s| Style { id: s.0, name: s.1.to_string() }).collect(),
        supported_features: Feat { permitted_synthesis_morphing: "ALL".to_string() },
        version: "0.14.7".to_string(),
    }
}

fn client(speakers: Vec<Speaker>) -> VVClient {
    let mut vvc = VVClient::new();
    vvc.get_speakers(speakers);
    vvc
}

#[test]
fn one_speaker_one_style() {
    let vvc = client(vec![speaker("A", &[(1, "Normal")])]);
    assert_eq!(vvc.speaker("A", "Normal"), Some(1));
    assert_eq!(vvc.speaker("A", "Missing"), None);
    assert_eq!(vvc.speaker("B", "Normal"), None);
    assert_eq!(vvc.detail_speaker(1), (true, "1 A Normal".to_string()));
    assert_eq!(vvc.detail_speaker(99), (false, "99 UNKNOWN UNKNOWN".to_string()));
}

#[test]
fn empty_registry_knows_nothing() {
    let vvc = VVClient::new();
    assert_eq!(vvc.find("A"), None);
    assert_eq!(vvc.speaker("A", "Normal"), None);
    assert_eq!(vvc.detail_speaker(0), (false, "0 UNKNOWN UNKNOWN".to_string()));
    assert!(vvc.display_speakers().is_empty());
}

#[test]
fn names_match_exactly() {
    let vvc = client(vec![speaker("Anna", &[(1, "Normal")]), speaker("anna", &[(2, "Normal")])]);
    assert_eq!(vvc.find("Anna"), Some(0));
    assert_eq!(vvc.find("anna"), Some(1));
    assert_eq!(vvc.find("Ann"), None);
    assert_eq!(vvc.find("Anna "), None);
    assert_eq!(vvc.find(""), None);
    assert_eq!(vvc.speaker("Anna", "normal"), None);
}

#[test]
fn every_voice_id_leads_back_to_its_place() {
    let vvc = client(vec![
        speaker("A", &[(2, "Normal"), (0, "Sweet"), (6, "Sharp")]),
        speaker("B", &[(3, "Normal"), (1, "Sweet")]),
        speaker("C", &[]),
        speaker("D", &[(-4, "Normal")]),
    ]);
    let reg_places = [(0, 0, 2), (0, 1, 0), (0, 2, 6), (1, 0, 3), (1, 1, 1), (3, 0, -4)];
    for (i, j, id) in reg_places {
        assert_eq!(vvc.style_id((i, j)), id);
        let expected = format!("{} {} {}", id, vvc.name(i), vvc.style_name((i, j)));
        assert_eq!(vvc.detail_speaker(id), (true, expected));
    }
    assert_eq!(vvc.detail_speaker(-4), (true, "-4 D Normal".to_string()));
    assert_eq!(vvc.detail_speaker(4), (false, "4 UNKNOWN UNKNOWN".to_string()));
    assert_eq!(vvc.detail_speaker(-2147483648), (false, "-2147483648 UNKNOWN UNKNOWN".to_string()));
    assert_eq!(vvc.detail_speaker(2147483647), (false, "2147483647 UNKNOWN UNKNOWN".to_string()));
}

#[test]
fn registry_locates_by_indices() {
    let reg = SpeakerRegistry::load(vec![
        speaker("A", &[(2, "Normal"), (0, "Sweet")]),
        speaker("B", &[(3, "Normal")]),
    ]);
    assert_eq!(reg.len(), 2);
    assert_eq!(reg.locate(0), Some((0, 1)));
    assert_eq!(reg.locate(3), Some((1, 0)));
    assert_eq!(reg.locate(1), None);
    assert_eq!(reg.find_index("B"), Some(1));
    assert_eq!(reg.resolve_voice_id("A", "Sweet"), Some(0));
    assert_eq!(reg.speaker_name(1), "B");
    assert_eq!(reg.style_name(0, 1), "Sweet");
    assert_eq!(reg.voice_id(0, 0), 2);
    assert_eq!(reg.describe(2), (true, "2 A Normal".to_string()));
}

#[test]
fn later_speaker_wins_a_shared_name() {
    let vvc = client(vec![
        speaker("A", &[(1, "Normal")]),
        speaker("B", &[(2, "Normal")]),
        speaker("A", &[(3, "Normal"), (4, "Quiet")]),
    ]);
    assert_eq!(vvc.find("A"), Some(2));
    assert_eq!(vvc.speaker("A", "Normal"), Some(3));
    assert_eq!(vvc.speaker("A", "Quiet"), Some(4));
    assert_eq!(vvc.detail_speaker(1), (true, "1 A Normal".to_string()));
}

#[test]
fn later_place_wins_a_shared_voice_id() {
    let vvc = client(vec![
        speaker("A", &[(1, "Normal"), (1, "Again")]),
        speaker("B", &[(7, "Normal")]),
        speaker("C", &[(1, "Last"), (7, "Calm")]),
    ]);
    assert_eq!(vvc.detail_speaker(1), (true, "1 C Last".to_string()));
    assert_eq!(vvc.detail_speaker(7), (true, "7 C Calm".to_string()));
    assert_eq!(vvc.speaker("A", "Normal"), Some(1));
}

#[test]
fn first_style_wins_a_shared_style_name() {
    let vvc = client(vec![speaker("A", &[(1, "Normal"), (2, "Normal")])]);
    assert_eq!(vvc.speaker("A", "Normal"), Some(1));
}

#[test]
fn loading_speakers_again_replaces_the_registry() {
    let mut vvc = client(vec![speaker("A", &[(1, "Normal")])]);
    vvc.get_speakers(vec![speaker("B", &[(2, "Normal")])]);
    assert_eq!(vvc.find("A"), None);
    assert_eq!(vvc.find("B"), Some(0));
    assert_eq!(vvc.speakers().len(), 1);
    assert_eq!(vvc.speakers()[0].name, "B");
    assert_eq!(vvc.speakers()[0].styles[0].id, 2);
    assert_eq!(vvc.detail_speaker(1), (false, "1 UNKNOWN UNKNOWN".to_string()));
    assert_eq!(vvc.detail_speaker(2), (true, "2 B Normal".to_string()));
}

#[test]
fn display_lines_show_speakers_and_styles() {
    let list = vec![
        speaker("四国めたん", &[(2, "ノーマル"), (0, "あまあま")]),
        speaker("Q\"uote", &[(-1, "a\\b\n")]),
        speaker("Nobody", &[]),
    ];
    let mut expected: Vec<String> = Vec::new();
    for (idx, sp) in list.iter().enumerate() {
        expected.push(format!("{}: {}", idx, sp.name));
        for (i, style) in sp.styles.iter().enumerate() {
            expected.push(format!(" ({}, {}): {:?}", idx, i, style));
        }
    }
    let vvc = client(list);
    let lines = vvc.display_speakers();
    assert_eq!(lines, expected);
    assert_eq!(lines.len(), 6);
    assert_eq!(lines[0], "0: 四国めたん");
    assert_eq!(lines[1], " (0, 0): Style { id: 2, name: \"ノーマル\" }");
    assert_eq!(lines[4], " (1, 0): Style { id: -1, name: \"a\\\\b\\n\" }");
    assert_eq!(lines[5], "2: Nobody");
}
