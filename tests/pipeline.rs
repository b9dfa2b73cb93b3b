use std::io::Write;

use minicontainer::command::binary_name;
use minicontainer::entry_path::path_stays_inside;
use minicontainer::layer::{decode_layer, first_escaping_path, judge_layer, LayerError};
use minicontainer::manifest::{select_digest, ManifestEntry, ManifestError};
use minicontainer::reference::{parse_image_reference, ImageReference};
use minicontainer::registry::{blob_request, image_manifest_request, manifest_list_request, token_request};
use minicontainer::session::{exit_status, Action, Event, Phase, RunError, Session};
use minicontainer::text::same_text;

fn entry(digest: &str, arch: &str) -> ManifestEntry {
    ManifestEntry { digest: digest.to_string(), architecture: arch.to_string() }
}

fn tar_with(paths: &[&[u8]], contents: &[&[u8]]) -> Vec<u8> {
    let mut builder = tar::Builder::new(Vec::new());
    for (p, data) in paths.iter().zip(contents.iter()) {
        let mut header = tar::Header::new_gnu();
        header.as_old_mut().name[..p.len()].copy_from_slice(p);
        header.set_size(data.len() as u64);
        header.set_mode(0o644);
        header.set_entry_type(tar::EntryType::Regular);
        header.set_cksum();
        builder.append(&header, *data).unwrap();
    }
    builder.into_inner().unwrap()
}

fn gzip(data: &[u8]) -> Vec<u8> {
    let mut enc = flate2::write::GzEncoder::new(Vec::new(), flate2::Compression::default());
    enc.write_all(data).unwrap();
    enc.finish().unwrap()
}

fn image(name: &str, tag: &str) -> ImageReference {
    ImageReference { name: name.to_string(), tag: tag.to_string() }
}

fn fetch_url(a: &Action) -> String {
    match a {
        Action::Fetch(req) => req.url.clone(),
        other => panic!("expected a fetch, got {:?}", other),
    }
}

#[test]
fn reference_without_tag_is_latest() {
    let r = parse_image_reference("alpine");
    assert_eq!(r.name, "alpine");
    assert_eq!(r.tag, "latest");
    let e = parse_image_reference("");
    assert_eq!(e.name, "");
    assert_eq!(e.tag, "latest");
}

#[test]
fn reference_splits_on_first_colon() {
    let r = parse_image_reference("ubuntu:22.04");
    assert_eq!((r.name.as_str(), r.tag.as_str()), ("ubuntu", "22.04"));
    let r = parse_image_reference("a:b:c");
    assert_eq!((r.name.as_str(), r.tag.as_str()), ("a", "b:c"));
    let r = parse_image_reference(":x");
    assert_eq!((r.name.as_str(), r.tag.as_str()), ("", "x"));
    let r = parse_image_reference("busybox:");
    assert_eq!((r.name.as_str(), r.tag.as_str()), ("busybox", ""));
}

#[test]
fn registry_requests_are_exact() {
    let t = token_request("alpine");
    assert_eq!(
        t.url,
        "https://auth.docker.io/token?service=registry.docker.io&scope=repository:library/alpine:pull"
    );
    assert!(t.bearer.is_none() && t.accept.is_none());
    let m = manifest_list_request("alpine", "3.19", "tok");
    assert_eq!(m.url, "https://registry.hub.docker.com/v2/library/alpine/manifests/3.19");
    assert_eq!(m.bearer.as_deref(), Some("tok"));
    assert_eq!(
        m.accept.as_deref(),
        Some("application/vnd.docker.distribution.manifest.list.v2+json")
    );
    let i = image_manifest_request("alpine", "sha256:ab", "tok");
    assert_eq!(i.url, "https://registry.hub.docker.com/v2/library/alpine/manifests/sha256:ab");
    assert_eq!(i.accept.as_deref(), Some("application/vnd.oci.image.manifest.v1+json"));
    let b = blob_request("alpine", "sha256:cd", "tok");
    assert_eq!(b.url, "https://registry.hub.docker.com/v2/library/alpine/blobs/sha256:cd");
    assert_eq!(b.bearer.as_deref(), Some("tok"));
    assert!(b.accept.is_none());
}

#[test]
fn digest_is_the_unique_match() {
    let entries = vec![entry("sha256:arm", "arm64"), entry("sha256:x86", "amd64"), entry("sha256:s390", "s390x")];
    assert_eq!(select_digest(&entries, "amd64"), Ok("sha256:x86".to_string()));
    assert_eq!(select_digest(&entries, "arm64"), Ok("sha256:arm".to_string()));
}

#[test]
fn digest_match_is_case_sensitive() {
    let entries = vec![entry("sha256:x86", "AMD64")];
    assert_eq!(select_digest(&entries, "amd64"), Err(ManifestError::NoMatchingArchitecture));
    assert_eq!(select_digest(&Vec::new(), "amd64"), Err(ManifestError::NoMatchingArchitecture));
}

#[test]
fn two_entries_with_same_architecture_are_ambiguous() {
    let entries = vec![entry("sha256:one", "amd64"), entry("sha256:arm", "arm64"), entry("sha256:two", "amd64")];
    assert_eq!(select_digest(&entries, "amd64"), Err(ManifestError::AmbiguousArchitecture));
}

#[test]
fn text_comparison() {
    assert!(same_text("amd64", "amd64"));
    assert!(!same_text("amd64", "amd6"));
    assert!(!same_text("amd64", "arm64"));
    assert!(same_text("", ""));
}

#[test]
fn traversal_paths_leave_the_directory() {
    assert!(!path_stays_inside(&b"../../etc/passwd".to_vec()));
    assert!(!path_stays_inside(&b"..".to_vec()));
    assert!(!path_stays_inside(&b"a/../../b".to_vec()));
    assert!(!path_stays_inside(&b"./../x".to_vec()));
}

#[test]
fn contained_paths_stay_inside() {
    assert!(path_stays_inside(&b"etc/passwd".to_vec()));
    assert!(path_stays_inside(&b"/etc/passwd".to_vec()));
    assert!(path_stays_inside(&b"a/../b".to_vec()));
    assert!(path_stays_inside(&b"./bin//sh".to_vec()));
    assert!(path_stays_inside(&b"".to_vec()));
    assert!(path_stays_inside(&b"...".to_vec()));
    assert!(path_stays_inside(&b"a/b/../../c".to_vec()));
}

#[test]
fn first_escaping_path_is_found() {
    let paths = vec![b"bin/sh".to_vec(), b"../x".to_vec(), b"../y".to_vec()];
    assert_eq!(first_escaping_path(&paths), Some(1));
    assert_eq!(first_escaping_path(&vec![b"bin".to_vec()]), None);
}

#[test]
fn layer_is_decompressed() {
    let archive = tar_with(&[b"etc/hostname"], &[b"box\n"]);
    let blob = gzip(&archive);
    let decoded = decode_layer(&blob).unwrap();
    assert_eq!(decoded, archive);
    assert_ne!(decoded, blob);
}

#[test]
fn layer_with_traversal_entry_is_refused() {
    let archive = tar_with(&[b"etc/ok", b"../../etc/passwd"], &[b"a", b"root::0:0\n"]);
    assert_eq!(decode_layer(&gzip(&archive)), Err(LayerError::UnsafePath));
}

#[test]
fn layer_that_is_not_gzip_is_refused() {
    assert_eq!(decode_layer(&b"plain bytes".to_vec()), Err(LayerError::Decompress));
}

#[test]
fn layer_that_is_not_tar_is_refused() {
    assert_eq!(decode_layer(&gzip(&[0x41u8; 512])), Err(LayerError::CorruptArchive));
}

#[test]
fn judging_a_layer() {
    let a = vec![1u8, 2, 3];
    assert_eq!(judge_layer(None, None), Err(LayerError::Decompress));
    assert_eq!(judge_layer(Some(a.clone()), None), Err(LayerError::CorruptArchive));
    assert_eq!(judge_layer(Some(a.clone()), Some(vec![b"../x".to_vec()])), Err(LayerError::UnsafePath));
    assert_eq!(judge_layer(Some(a.clone()), Some(vec![b"x".to_vec()])), Ok(a));
}

#[test]
fn binary_names() {
    assert_eq!(binary_name("/usr/local/bin/docker-explorer"), Some("docker-explorer".to_string()));
    assert_eq!(binary_name("ls"), Some("ls".to_string()));
    assert_eq!(binary_name("/bin/"), None);
    assert_eq!(binary_name(".."), None);
    assert_eq!(binary_name("a/."), None);
    assert_eq!(binary_name(""), None);
}

#[test]
fn error_statuses_are_distinct_and_non_zero() {
    let all = [
        RunError::OutOfOrder,
        RunError::Auth,
        RunError::Manifest(ManifestError::Unreadable),
        RunError::Layer(LayerError::Transfer),
        RunError::Filesystem,
        RunError::Privilege,
        RunError::Exec,
        RunError::ExitCodeUnavailable,
    ];
    let codes: Vec<i32> = all.iter().map(|e| exit_status(*e)).collect();
    for (i, c) in codes.iter().enumerate() {
        assert_ne!(*c, 0);
        for d in codes.iter().skip(i + 1) {
            assert_ne!(c, d);
        }
    }
    assert_eq!(exit_status(RunError::ExitCodeUnavailable), 127);
}

fn isolate_and_spawn(s: &mut Session) {
    assert!(matches!(s.step(Event::Completed), Action::ChangeRoot));
    assert!(matches!(s.step(Event::Completed), Action::SetWorkingDir));
    assert!(matches!(s.step(Event::Completed), Action::IsolatePids));
}

#[test]
fn run_without_image_passes_exit_code_seven() {
    let (mut s, a) = Session::start(None, "/bin/sh".to_string(), vec!["-c".to_string(), "exit 7".to_string()], "amd64".to_string());
    assert!(matches!(a, Action::PrepareRoot));
    match s.step(Event::Completed) {
        Action::InstallBinary { source, name } => {
            assert_eq!(source, "/bin/sh");
            assert_eq!(name, "sh");
        }
        other => panic!("{:?}", other),
    }
    isolate_and_spawn(&mut s);
    match s.step(Event::Completed) {
        Action::Spawn { program, args } => {
            assert_eq!(program, "/sh");
            assert_eq!(args, vec!["-c".to_string(), "exit 7".to_string()]);
        }
        other => panic!("{:?}", other),
    }
    match s.step(Event::Exited { code: Some(7), stdout: Vec::new(), stderr: Vec::new() }) {
        Action::Exit { code, .. } => assert_eq!(code, 7),
        other => panic!("{:?}", other),
    }
    assert_eq!(s.phase, Phase::Finished);
}

#[test]
fn run_relays_hello_output_verbatim() {
    let (mut s, _) = Session::start(None, "/bin/echo".to_string(), vec!["hello".to_string()], "amd64".to_string());
    s.step(Event::Completed);
    isolate_and_spawn(&mut s);
    s.step(Event::Completed);
    match s.step(Event::Exited { code: Some(0), stdout: b"hello\n".to_vec(), stderr: Vec::new() }) {
        Action::Exit { stdout, stderr, code } => {
            assert_eq!(stdout, b"hello\n".to_vec());
            assert!(stderr.is_empty());
            assert_eq!(code, 0);
        }
        other => panic!("{:?}", other),
    }
}

#[test]
fn run_relays_non_text_output() {
    let (mut s, _) = Session::start(None, "cat".to_string(), Vec::new(), "amd64".to_string());
    s.step(Event::Completed);
    isolate_and_spawn(&mut s);
    s.step(Event::Completed);
    match s.step(Event::Exited { code: Some(3), stdout: vec![0xff, 0xfe], stderr: vec![0x80] }) {
        Action::Exit { stdout, stderr, code } => {
            assert_eq!(stdout, vec![0xff, 0xfe]);
            assert_eq!(stderr, vec![0x80]);
            assert_eq!(code, 3);
        }
        other => panic!("{:?}", other),
    }
}

#[test]
fn signal_termination_is_reported() {
    let (mut s, _) = Session::start(None, "/bin/sleep".to_string(), Vec::new(), "amd64".to_string());
    s.step(Event::Completed);
    isolate_and_spawn(&mut s);
    s.step(Event::Completed);
    match s.step(Event::Exited { code: None, stdout: Vec::new(), stderr: Vec::new() }) {
        Action::Abort(e) => assert_eq!(e, RunError::ExitCodeUnavailable),
        other => panic!("{:?}", other),
    }
}

#[test]
fn command_without_file_name_stops_at_start() {
    let (s, a) = Session::start(None, "/bin/".to_string(), Vec::new(), "amd64".to_string());
    assert!(matches!(a, Action::Abort(RunError::Filesystem)));
    assert_eq!(s.phase, Phase::Finished);
}

#[test]
fn run_fetches_layers_in_list_order() {
    let (mut s, _) = Session::start(Some(image("alpine", "3.19")), "/bin/ls".to_string(), Vec::new(), "amd64".to_string());
    let a = s.step(Event::Completed);
    assert_eq!(fetch_url(&a), "https://auth.docker.io/token?service=registry.docker.io&scope=repository:library/alpine:pull");
    let a = s.step(Event::Token("tok".to_string()));
    assert_eq!(fetch_url(&a), "https://registry.hub.docker.com/v2/library/alpine/manifests/3.19");
    let a = s.step(Event::ManifestList(vec![entry("sha256:arm", "arm64"), entry("sha256:x86", "amd64")]));
    assert_eq!(fetch_url(&a), "https://registry.hub.docker.com/v2/library/alpine/manifests/sha256:x86");
    let a = s.step(Event::LayerList(vec!["sha256:A".to_string(), "sha256:B".to_string()]));
    assert_eq!(fetch_url(&a), "https://registry.hub.docker.com/v2/library/alpine/blobs/sha256:A");
    let layer_a = tar_with(&[b"etc/motd"], &[b"from A"]);
    match s.step(Event::Blob(gzip(&layer_a))) {
        Action::Unpack(x) => assert_eq!(x, layer_a),
        other => panic!("{:?}", other),
    }
    let a = s.step(Event::Completed);
    assert_eq!(fetch_url(&a), "https://registry.hub.docker.com/v2/library/alpine/blobs/sha256:B");
    let layer_b = tar_with(&[b"etc/motd"], &[b"from B"]);
    match s.step(Event::Blob(gzip(&layer_b))) {
        Action::Unpack(x) => assert_eq!(x, layer_b),
        other => panic!("{:?}", other),
    }
    match s.step(Event::Completed) {
        Action::InstallBinary { name, .. } => assert_eq!(name, "ls"),
        other => panic!("{:?}", other),
    }
}

#[test]
fn absent_architecture_fails_before_any_layer() {
    let (mut s, _) = Session::start(Some(image("alpine", "latest")), "/bin/ls".to_string(), Vec::new(), "amd64".to_string());
    s.step(Event::Completed);
    s.step(Event::Token("tok".to_string()));
    match s.step(Event::ManifestList(vec![entry("sha256:arm", "arm64")])) {
        Action::Abort(e) => assert_eq!(e, RunError::Manifest(ManifestError::NoMatchingArchitecture)),
        other => panic!("{:?}", other),
    }
    assert_eq!(s.phase, Phase::Finished);
    assert!(matches!(s.step(Event::LayerList(vec!["sha256:A".to_string()])), Action::Abort(RunError::OutOfOrder)));
}

#[test]
fn unsafe_layer_stops_the_run() {
    let (mut s, _) = Session::start(Some(image("alpine", "latest")), "/bin/ls".to_string(), Vec::new(), "amd64".to_string());
    s.step(Event::Completed);
    s.step(Event::Token("tok".to_string()));
    s.step(Event::ManifestList(vec![entry("sha256:x86", "amd64")]));
    s.step(Event::LayerList(vec!["sha256:A".to_string()]));
    let evil = tar_with(&[b"../../etc/passwd"], &[b"x"]);
    assert!(matches!(s.step(Event::Blob(gzip(&evil))), Action::Abort(RunError::Layer(LayerError::UnsafePath))));
}

#[test]
fn failures_are_named_by_phase() {
    let (mut s, _) = Session::start(Some(image("alpine", "latest")), "/bin/ls".to_string(), Vec::new(), "amd64".to_string());
    s.step(Event::Completed);
    assert!(matches!(s.step(Event::Failed), Action::Abort(RunError::Auth)));
    let (mut s, _) = Session::start(None, "/bin/ls".to_string(), Vec::new(), "amd64".to_string());
    assert!(matches!(s.step(Event::Failed), Action::Abort(RunError::Filesystem)));
    let (mut s, _) = Session::start(None, "/bin/ls".to_string(), Vec::new(), "amd64".to_string());
    s.step(Event::Completed);
    s.step(Event::Completed);
    assert!(matches!(s.step(Event::Failed), Action::Abort(RunError::Privilege)));
}

#[test]
fn unexpected_event_is_refused() {
    let (mut s, _) = Session::start(None, "/bin/ls".to_string(), Vec::new(), "amd64".to_string());
    assert!(matches!(s.step(Event::Token("t".to_string())), Action::Abort(RunError::OutOfOrder)));
    assert_eq!(s.phase, Phase::Finished);
}
