use staticfile::FsProbe;
use staticfile::HandlerOutcome;
use staticfile::Static;
use staticfile::StaticRequest;

#[test]
fn serves_existing_file() {
    let handler = Static::new(b"/site".to_vec());
    let req = StaticRequest { path: Some(b"/page.html".to_vec()), original_url: None };
    let probe = FsProbe {
        candidate: Some(b"<html>page</html>".to_vec()),
        index_is_file: false,
        index: None,
    };
    match handler.handle(req, probe) {
        HandlerOutcome::Terminate(resp) => {
            assert_eq!(resp.status, 200);
            assert_eq!(resp.body, b"<html>page</html>".to_vec());
            assert_eq!(resp.location, None);
            assert_eq!(resp.cache_control, None);
        }
        HandlerOutcome::Decline => panic!("expected Terminate"),
    }
}

#[test]
fn file_match_wins_over_index_file() {
    let handler = Static::new(b"/site".to_vec());
    let req = StaticRequest { path: Some(b"/docs".to_vec()), original_url: None };
    let probe = FsProbe {
        candidate: Some(b"a file named docs".to_vec()),
        index_is_file: true,
        index: Some(b"the index".to_vec()),
    };
    match handler.handle(req, probe) {
        HandlerOutcome::Terminate(resp) => {
            assert_eq!(resp.status, 200);
            assert_eq!(resp.body, b"a file named docs".to_vec());
        }
        HandlerOutcome::Decline => panic!("expected Terminate"),
    }
}

#[test]
fn serves_index_for_directory_style_path() {
    let handler = Static::new(b"/site".to_vec());
    let req = StaticRequest { path: Some(b"/docs/".to_vec()), original_url: None };
    let probe = FsProbe {
        candidate: None,
        index_is_file: true,
        index: Some(b"<html>docs index</html>".to_vec()),
    };
    match handler.handle(req, probe) {
        HandlerOutcome::Terminate(resp) => {
            assert_eq!(resp.status, 200);
            assert_eq!(resp.body, b"<html>docs index</html>".to_vec());
            assert_eq!(resp.location, None);
        }
        HandlerOutcome::Decline => panic!("expected Terminate"),
    }
}

#[test]
fn root_request_serves_site_index() {
    // root = /site, /site/index.html exists, request path "/": the candidate
    // "/site/./" is a directory, so the index-fallback branch serves
    // /site/./index.html.
    let handler = Static::new(b"/site".to_vec());
    assert_eq!(handler.index_path(&b"/".to_vec()), b"/site/./index.html".to_vec());
    let req = StaticRequest { path: Some(b"/".to_vec()), original_url: None };
    let probe = FsProbe {
        candidate: None,
        index_is_file: true,
        index: Some(b"<html>site index</html>".to_vec()),
    };
    match handler.handle(req, probe) {
        HandlerOutcome::Terminate(resp) => {
            assert_eq!(resp.status, 200);
            assert_eq!(resp.body, b"<html>site index</html>".to_vec());
        }
        HandlerOutcome::Decline => panic!("expected Terminate"),
    }
}

#[test]
fn redirects_path_without_trailing_slash() {
    // root = /site, /site/docs/index.html exists, request path "/docs":
    // 303 with Location "/docs/".
    let handler = Static::new(b"/site".to_vec());
    let req = StaticRequest { path: Some(b"/docs".to_vec()), original_url: None };
    let probe = FsProbe { candidate: None, index_is_file: true, index: None };
    match handler.handle(req, probe) {
        HandlerOutcome::Terminate(resp) => {
            assert_eq!(resp.status, 303);
            assert_eq!(resp.location, Some(b"/docs/".to_vec()));
            assert_eq!(resp.body, b"Redirecting to /docs/".to_vec());
        }
        HandlerOutcome::Decline => panic!("expected Terminate"),
    }
}

#[test]
fn redirect_prefers_original_url() {
    // Mounted under /mnt: the redirect must be built from the original URL,
    // not the mount-stripped sub-path.
    let handler = Static::new(b"/site".to_vec());
    let req = StaticRequest {
        path: Some(b"/docs".to_vec()),
        original_url: Some(b"/mnt/docs".to_vec()),
    };
    let probe = FsProbe { candidate: None, index_is_file: true, index: None };
    match handler.handle(req, probe) {
        HandlerOutcome::Terminate(resp) => {
            assert_eq!(resp.status, 303);
            assert_eq!(resp.location, Some(b"/mnt/docs/".to_vec()));
            assert_eq!(resp.body, b"Redirecting to /mnt/docs/".to_vec());
        }
        HandlerOutcome::Decline => panic!("expected Terminate"),
    }
}

#[test]
fn empty_path_redirects_to_root() {
    // The empty path does not end in "/", so with an index file present it
    // redirects to "/" rather than reading past the end of the string.
    let handler = Static::new(b"/site".to_vec());
    let req = StaticRequest { path: Some(b"".to_vec()), original_url: None };
    let probe = FsProbe { candidate: None, index_is_file: true, index: None };
    match handler.handle(req, probe) {
        HandlerOutcome::Terminate(resp) => {
            assert_eq!(resp.status, 303);
            assert_eq!(resp.location, Some(b"/".to_vec()));
            assert_eq!(resp.body, b"Redirecting to /".to_vec());
        }
        HandlerOutcome::Decline => panic!("expected Terminate"),
    }
}

#[test]
fn declines_when_nothing_matches() {
    // root = /site, nothing under /docs2: Decline, no response written.
    let handler = Static::new(b"/site".to_vec());
    let req = StaticRequest { path: Some(b"/docs2".to_vec()), original_url: None };
    let probe = FsProbe { candidate: None, index_is_file: false, index: None };
    assert_eq!(handler.handle(req, probe), HandlerOutcome::Decline);
}

#[test]
fn declines_without_url() {
    let handler = Static::new(b"/site".to_vec());
    let req = StaticRequest { path: None, original_url: None };
    let probe = FsProbe { candidate: None, index_is_file: false, index: None };
    assert_eq!(handler.handle(req, probe), HandlerOutcome::Decline);
}

#[test]
fn declines_when_index_read_fails() {
    // The stat saw a regular file but the read failed: the failure is not
    // escalated, a later handler may still answer.
    let handler = Static::new(b"/site".to_vec());
    let req = StaticRequest { path: Some(b"/docs/".to_vec()), original_url: None };
    let probe = FsProbe { candidate: None, index_is_file: true, index: None };
    assert_eq!(handler.handle(req, probe), HandlerOutcome::Decline);
}

#[test]
fn handle_is_idempotent() {
    // Same request, same filesystem snapshot: identical outcome, byte for
    // byte, on every invocation.
    let handler = Static::new(b"/site".to_vec());
    let req = StaticRequest { path: Some(b"/docs".to_vec()), original_url: None };
    let probe = FsProbe { candidate: None, index_is_file: true, index: None };
    let first = handler.handle(req.clone(), probe.clone());
    let second = handler.handle(req, probe);
    assert_eq!(first, second);

    let req2 = StaticRequest { path: Some(b"/a.txt".to_vec()), original_url: None };
    let probe2 = FsProbe { candidate: Some(b"abc".to_vec()), index_is_file: false, index: None };
    let first2 = handler.handle(req2.clone(), probe2.clone());
    let second2 = handler.handle(req2, probe2);
    assert_eq!(first2, second2);
}
