use voicevox_rs::client::{Feat, Speaker, Style, VVClient};
use voicevox_rs::playback::{Phase, PlayAction, PlayEvent};
use voicevox_rs::words::Words;

fn speaker(name: &str, styles: &[(i32, &str)]) -> Speaker {
    Speaker {
        name: name.to_string(),
        speaker_uuid: String::new(),
        styles: styles.iter().map(|s| Style { id: s.0, name: s.1.to_string() }).collect(),
        supported_features: Feat { permitted_synthesis_morphing: "ALL".to_string() },
        version: "0.14.7".to_string(),
    }
}

/// The speakers as the engine of version 0.14.7 reports them.
fn speakers() -> Vec<Speaker> {
    vec![
        speaker("四国めたん", &[(2, "ノーマル"), (0, "あまあま"), (6, "ツンツン"), (4, "セクシー"), (36, "ささやき"), (37, "ヒソヒソ")]),
        speaker("ずんだもん", &[(3, "ノーマル"), (1, "あまあま"), (7, "ツンツン"), (5, "セクシー"), (22, "ささやき"), (38, "ヒソヒソ")]),
        speaker("春日部つむぎ", &[(8, "ノーマル")]),
        speaker("雨晴はう", &[(10, "ノーマル")]),
        speaker("波音リツ", &[(9, "ノーマル"), (65, "クイーン")]),
        speaker("玄野武宏", &[(11, "ノーマル"), (39, "喜び"), (40, "ツンギレ"), (41, "悲しみ")]),
        speaker("白上虎太郎", &[(12, "ふつう"), (32, "わーい"), (33, "びくびく"), (34, "おこ"), (35, "びえーん")]),
        speaker("青山龍星", &[(13, "ノーマル")]),
        speaker("冥鳴ひまり", &[(14, "ノーマル")]),
        speaker("九州そら", &[(16, "ノーマル"), (15, "あまあま"), (18, "ツンツン"), (17, "セクシー"), (19, "ささやき")]),
        speaker("もち子さん", &[(20, "ノーマル")]),
        speaker("剣崎雌雄", &[(21, "ノーマル")]),
        speaker("WhiteCUL", &[(23, "ノーマル"), (24, "たのしい"), (25, "かなしい"), (26, "びえーん")]),
        speaker("後鬼", &[(27, "人間ver."), (28, "ぬいぐるみver.")]),
        speaker("No.7", &[(29, "ノーマル"), (30, "アナウンス"), (31, "読み聞かせ")]),
        speaker("ちび式じい", &[(42, "ノーマル")]),
        speaker("櫻歌ミコ", &[(43, "ノーマル"), (44, "第二形態"), (45, "ロリ")]),
        speaker("小夜/SAYO", &[(46, "ノーマル")]),
        speaker("ナースロボ＿タイプＴ", &[(47, "ノーマル"), (48, "楽々"), (49, "恐怖"), (50, "内緒話")]),
        speaker("†聖騎士 紅桜†", &[(51, "ノーマル")]),
        speaker("雀松朱司", &[(52, "ノーマル")]),
        speaker("麒ヶ島宗麟", &[(53, "ノーマル")]),
        speaker("春歌ナナ", &[(54, "ノーマル")]),
        speaker("猫使アル", &[(55, "ノーマル"), (56, "おちつき"), (57, "うきうき")]),
        speaker("猫使ビィ", &[(58, "ノーマル"), (59, "おちつき"), (60, "人見知り")]),
    ]
}

fn client() -> VVClient {
    let mut vvc = VVClient::new();
    vvc.get_speakers(speakers());
    let rows = vec![Words { before: "/".to_string(), after: "スラッシュ".to_string(), ext: 0 }];
    assert_eq!(vvc.load_words(rows), Ok(()));
    vvc.sink_opened(true);
    vvc
}

/// A linear-PCM container's header as the engine sends it.
fn wave_header() -> Vec<u8> {
    vec![
        0x52, 0x49, 0x46, 0x46, 0x24, 0x10, 0x01, 0x00, 0x57, 0x41, 0x56, 0x45, 0x66, 0x6d, 0x74,
        0x20, 0x10, 0x00, 0x00, 0x00, 0x01, 0x00, 0x01, 0x00, 0xc0, 0x5d, 0x00, 0x00, 0x80, 0xbb,
        0x00, 0x00, 0x02, 0x00, 0x10, 0x00, 0x64, 0x61, 0x74, 0x61, 0x00, 0x10, 0x01, 0x00,
    ]
}

/// Plays a buffer as a driver would whose outside work all succeeds, and
/// gives what the call returns.
fn speak(vvc: &mut VVClient, dat: &Vec<u8>, sec: u64) -> Result<(), voicevox_rs::error::VVError> {
    let mut action = vvc.speak(dat, sec);
    let mut slept: u64 = 0;
    loop {
        action = match action {
            PlayAction::Decode => vvc.played(PlayEvent::Decoded(true)),
            PlayAction::OpenEndpoint => vvc.played(PlayEvent::Opened(true)),
            PlayAction::StartStream => vvc.played(PlayEvent::Started(true)),
            PlayAction::Sleep(n) => {
                slept += n;
                vvc.played(PlayEvent::Slept)
            }
            PlayAction::Append => vvc.played(PlayEvent::Appended),
            PlayAction::WaitUntilEnd => vvc.played(PlayEvent::Drained),
            PlayAction::Done => {
                assert_eq!(slept, sec);
                return Ok(());
            }
            PlayAction::Fail(e) => return Err(e),
        }
    }
}

fn speak_flush(vvc: &mut VVClient) -> Result<(), voicevox_rs::error::VVError> {
    match vvc.speak_flush() {
        PlayAction::WaitUntilEnd => match vvc.played(PlayEvent::Drained) {
            PlayAction::Done => Ok(()),
            PlayAction::Fail(e) => Err(e),
            other => panic!("unexpected action {:?}", other),
        },
        PlayAction::Fail(e) => Err(e),
        other => panic!("unexpected action {:?}", other),
    }
}

#[test]
fn check_speakers() {
    let vvc = client();
    assert_eq!(vvc.display_speakers().len(), 25 + 62);
    let ptn: Vec<(i32, &str, usize, usize, &str)> = vec![
        (46, "小夜/SAYO", 17, 0, "ノーマル"),
        (0, "四国めたん", 0, 1, "あまあま"),
        (3, "ずんだもん", 1, 0, "ノーマル"),
    ];
    for p in ptn {
        assert_eq!(vvc.speaker(p.1, p.4), Some(p.0));
        assert_eq!(vvc.find(p.1), Some(p.2));
        assert_eq!(vvc.name(p.2), p.1);
        assert_eq!(vvc.style_id((p.2, p.3)), p.0);
        assert_eq!(vvc.style_name((p.2, p.3)), p.4);
        assert_eq!(vvc.detail_speaker(p.0), (true, format!("{} {} {}", p.0, p.1, p.4)));
    }
}

#[test]
fn check_query() {
    let vvc = client();
    let Some(id) = vvc.speaker("ずんだもん", "ノーマル") else { panic!("id") };
    let qs = vvc.query("ずんだもんなのだ。", id);
    assert_eq!(
        qs,
        "http://127.0.0.1:50021/audio_query?text=%E3%81%9A%E3%82%93%E3%81%A0%E3%82%82%E3%82%93%E3%81%AA%E3%81%AE%E3%81%A0%E3%80%82&speaker=3"
    );
}

#[test]
fn check_synthesis() {
    let mut vvc = client();
    let Some(id) = vvc.speaker("ずんだもん", "ノーマル") else { panic!("id") };
    assert_eq!(vvc.synth(id), "http://127.0.0.1:50021/synthesis?speaker=3");
    let dat = wave_header();
    assert_eq!(vvc.speak(&dat, 2), PlayAction::Decode);
    assert_eq!(vvc.playback().phase(), Phase::Decoding { size: 44, sec: 2 });
    assert_eq!(vvc.played(PlayEvent::Decoded(true)), PlayAction::OpenEndpoint);
    assert_eq!(vvc.played(PlayEvent::Opened(true)), PlayAction::StartStream);
    assert_eq!(vvc.played(PlayEvent::Started(true)), PlayAction::Sleep(2));
    assert_eq!(vvc.played(PlayEvent::Slept), PlayAction::Done);
    assert_eq!(speak(&mut vvc, &dat, 3), Ok(()));
    assert!(vvc.playback().queued().is_empty());
}

#[test]
fn check_words() {
    let mut vvc = client();
    let saved = vvc.save_words();
    assert_eq!(saved.len(), 1);
    assert_eq!((saved[0].before.as_str(), saved[0].after.as_str(), saved[0].ext), ("/", "スラッシュ", 0));
    let characters: Vec<(&str, &str)> = vec![
        ("ずんだもん", "あまあま"),
        ("波音リツ", "クイーン"),
        ("波音リツ", "ノーマル"),
        ("小夜/SAYO", "ノーマル"),
    ];
    for chara in characters {
        let Some(_id) = vvc.speaker(chara.0, chara.1) else { panic!("id") };
        let text = format!("{} {} ＋+－-×*÷/ 🐼🐼🍞🍞🐼🍞🐼", chara.0, chara.1);
        let sent = vvc.normalize(text.as_str());
        assert_eq!(sent, text.replace("/", "スラッシュ"));
        let dat = wave_header();
        assert_eq!(speak(&mut vvc, &dat, 0), Ok(()));
    }
    assert_eq!(vvc.playback().queued(), &vec![44, 44, 44, 44]);
    assert_eq!(speak_flush(&mut vvc), Ok(()));
    assert!(vvc.playback().queued().is_empty());
}

#[test]
fn check_characters() {
    let mut vvc = client();
    let characters: Vec<(&str, &str, i32)> = vec![
        ("雨晴はう", "ノーマル", 10),
        ("春日部つむぎ", "ノーマル", 8),
        ("四国めたん", "ノーマル", 2),
        ("四国めたん", "あまあま", 0),
        ("ずんだもん", "ノーマル", 3),
        ("小夜/SAYO", "ノーマル", 46),
        ("猫使アル", "ノーマル", 55),
        ("猫使アル", "おちつき", 56),
        ("猫使アル", "うきうき", 57),
        ("猫使ビィ", "ノーマル", 58),
        ("猫使ビィ", "おちつき", 59),
        ("猫使ビィ", "人見知り", 60),
    ];
    let mut queued = 0;
    for chara in characters {
        let Some(id) = vvc.speaker(chara.0, chara.1) else { panic!("id") };
        assert_eq!(id, chara.2);
        let text = format!("{}です{}なのです", chara.0, chara.1);
        let qs = vvc.query(text.as_str(), id);
        assert!(qs.starts_with("http://127.0.0.1:50021/audio_query?text=%"));
        assert!(qs.ends_with(format!("&speaker={}", id).as_str()));
        let dat = wave_header();
        assert_eq!(speak(&mut vvc, &dat, 0), Ok(()));
        assert_eq!(speak(&mut vvc, &dat, 0), Ok(()));
        queued += 2;
        assert_eq!(vvc.playback().queued().len(), queued);
    }
    assert_eq!(speak_flush(&mut vvc), Ok(()));
    assert!(vvc.playback().queued().is_empty());
}
