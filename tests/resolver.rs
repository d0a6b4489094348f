use audio_assets::resolver::{read_outcome, AssetError, AssetSearch, BuildMode, Origin, Probe, Step};
use std::collections::HashMap;

/// A fake host: files by tree and relative path, and relative paths that the
/// resource resolver refuses to map.
struct FakeHost {
    files: HashMap<(Origin, String), Result<Vec<u8>, String>>,
    unresolvable: Vec<String>,
}

impl FakeHost {
    fn new() -> FakeHost {
        FakeHost { files: HashMap::new(), unresolvable: Vec::new() }
    }

    fn put(mut self, origin: Origin, relative: &str, content: &[u8]) -> FakeHost {
        self.files.insert((origin, relative.to_string()), Ok(content.to_vec()));
        self
    }

    fn unreadable(mut self, origin: Origin, relative: &str, cause: &str) -> FakeHost {
        self.files.insert((origin, relative.to_string()), Err(cause.to_string()));
        self
    }

    fn refuse(mut self, relative: &str) -> FakeHost {
        self.unresolvable.push(relative.to_string());
        self
    }

    /// Runs a search; returns its result and the candidates looked at.
    fn load(&self, mode: BuildMode, filename: &str) -> (Result<Vec<u8>, AssetError>, Vec<(Origin, String)>) {
        let mut search = AssetSearch::new(filename.to_string(), mode);
        let mut seen = Vec::new();
        while let Some(c) = search.current() {
            seen.push((c.origin, c.relative.clone()));
            let key = (c.origin, c.relative.clone());
            let probe = if self.unresolvable.contains(&c.relative) && c.origin == Origin::Resources {
                Probe::Unresolved
            } else if self.files.contains_key(&key) {
                Probe::Present(format!("/base/{}", c.relative))
            } else {
                Probe::Absent
            };
            match search.observe(probe) {
                Step::Read { origin, path } => {
                    let read = self.files[&key].clone();
                    return (read_outcome(origin, path, read), seen);
                }
                Step::Next => {}
                Step::NotFound => return (Err(search.not_found()), seen),
            }
        }
        (Err(search.not_found()), seen)
    }
}

fn res(p: &str) -> (Origin, String) {
    (Origin::Resources, p.to_string())
}

#[test]
fn chime_under_resources_audio_is_returned() {
    let host = FakeHost::new().put(Origin::Resources, "resources/audio/chime.wav", b"RIFF-chime");
    let (r, _) = host.load(BuildMode::Production, "chime.wav");
    assert_eq!(r, Ok(b"RIFF-chime".to_vec()));
}

#[test]
fn missing_file_gives_the_not_found_message() {
    let host = FakeHost::new();
    let (r, seen) = host.load(BuildMode::Production, "missing.wav");
    let e = r.unwrap_err();
    assert_eq!(e, AssetError::NotFound { filename: "missing.wav".to_string() });
    assert_eq!(e.message(), "Could not find audio file missing.wav in resources");
    assert_eq!(seen.len(), 4);
}

#[test]
fn chime_under_resources_only_is_returned() {
    let host = FakeHost::new().put(Origin::Resources, "resources/chime.wav", b"second");
    let (r, seen) = host.load(BuildMode::Production, "chime.wav");
    assert_eq!(r, Ok(b"second".to_vec()));
    assert_eq!(seen, vec![res("resources/audio/chime.wav"), res("resources/chime.wav")]);
}

#[test]
fn first_candidate_wins_over_later_ones() {
    let host = FakeHost::new()
        .put(Origin::Resources, "resources/audio/a.wav", b"one")
        .put(Origin::Resources, "resources/a.wav", b"two")
        .put(Origin::Resources, "audio/a.wav", b"three")
        .put(Origin::Resources, "a.wav", b"four");
    let (r, seen) = host.load(BuildMode::Production, "a.wav");
    assert_eq!(r, Ok(b"one".to_vec()));
    assert_eq!(seen, vec![res("resources/audio/a.wav")]);
}

#[test]
fn development_reads_the_project_tree_first() {
    let host = FakeHost::new()
        .put(Origin::ProjectTree, "resources/audio/a.wav", b"dev")
        .put(Origin::Resources, "resources/audio/a.wav", b"packaged");
    let (r, seen) = host.load(BuildMode::Development, "a.wav");
    assert_eq!(r, Ok(b"dev".to_vec()));
    assert_eq!(seen, vec![(Origin::ProjectTree, "resources/audio/a.wav".to_string())]);
}

#[test]
fn development_falls_back_to_resources() {
    let host = FakeHost::new().put(Origin::Resources, "audio/a.wav", b"third");
    let (r, seen) = host.load(BuildMode::Development, "a.wav");
    assert_eq!(r, Ok(b"third".to_vec()));
    assert_eq!(seen.len(), 4);
}

#[test]
fn bare_filename_is_the_last_candidate() {
    let host = FakeHost::new().put(Origin::Resources, "a.wav", b"bare");
    let (r, seen) = host.load(BuildMode::Production, "a.wav");
    assert_eq!(r, Ok(b"bare".to_vec()));
    assert_eq!(
        seen,
        vec![res("resources/audio/a.wav"), res("resources/a.wav"), res("audio/a.wav"), res("a.wav")]
    );
}

#[test]
fn nothing_found_names_the_file_in_both_modes() {
    let host = FakeHost::new().put(Origin::Resources, "other.wav", b"x");
    for mode in [BuildMode::Development, BuildMode::Production] {
        let (r, _) = host.load(mode, "beep.ogg");
        let msg = r.unwrap_err().message();
        assert!(msg.contains("beep.ogg"));
    }
    let (_, seen) = host.load(BuildMode::Development, "beep.ogg");
    assert_eq!(seen.len(), 5);
}

#[test]
fn unreadable_file_stops_the_search() {
    let host = FakeHost::new()
        .unreadable(Origin::Resources, "resources/audio/a.wav", "permission denied")
        .put(Origin::Resources, "resources/a.wav", b"later");
    let (r, seen) = host.load(BuildMode::Production, "a.wav");
    let e = r.unwrap_err();
    assert_eq!(
        e,
        AssetError::ReadFailure {
            origin: Origin::Resources,
            path: "/base/resources/audio/a.wav".to_string(),
            cause: "permission denied".to_string(),
        }
    );
    assert_eq!(e.message(), "Failed to read file at /base/resources/audio/a.wav: permission denied");
    assert_eq!(seen.len(), 1);
}

#[test]
fn unreadable_project_file_is_a_dev_path_failure() {
    let host = FakeHost::new()
        .unreadable(Origin::ProjectTree, "resources/audio/a.wav", "gone")
        .put(Origin::Resources, "resources/audio/a.wav", b"packaged");
    let (r, seen) = host.load(BuildMode::Development, "a.wav");
    assert_eq!(
        r.unwrap_err().message(),
        "Failed to read file from dev path /base/resources/audio/a.wav: gone"
    );
    assert_eq!(seen.len(), 1);
}

#[test]
fn production_ignores_the_project_tree() {
    let host = FakeHost::new().put(Origin::ProjectTree, "resources/audio/a.wav", b"dev");
    let (r, seen) = host.load(BuildMode::Production, "a.wav");
    assert_eq!(r, Err(AssetError::NotFound { filename: "a.wav".to_string() }));
    assert!(seen.iter().all(|(o, _)| *o == Origin::Resources));
}

#[test]
fn unresolvable_candidates_are_skipped() {
    let host = FakeHost::new()
        .refuse("resources/audio/a.wav")
        .put(Origin::Resources, "resources/audio/a.wav", b"hidden")
        .put(Origin::Resources, "resources/a.wav", b"next");
    let (r, seen) = host.load(BuildMode::Production, "a.wav");
    assert_eq!(r, Ok(b"next".to_vec()));
    assert_eq!(seen.len(), 2);
}

#[test]
fn all_candidates_unresolvable_is_not_found() {
    let host = FakeHost::new().refuse("resources/audio/a.wav").refuse("resources/a.wav").refuse("audio/a.wav").refuse("a.wav");
    let (r, _) = host.load(BuildMode::Production, "a.wav");
    assert_eq!(r.unwrap_err().message(), "Could not find audio file a.wav in resources");
}

#[test]
fn read_outcome_passes_bytes_through() {
    let r = read_outcome(Origin::Resources, "/p".to_string(), Ok(vec![1, 2, 3]));
    assert_eq!(r, Ok(vec![1, 2, 3]));
}

#[test]
fn search_is_over_after_a_find() {
    let mut search = AssetSearch::new("a.wav".to_string(), BuildMode::Production);
    let step = search.observe(Probe::Present("/x".to_string()));
    assert!(matches!(step, Step::Read { origin: Origin::Resources, .. }));
    assert!(search.current().is_none());
}
