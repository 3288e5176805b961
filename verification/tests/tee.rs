use command_proxy::dispatch::RunPath;
use command_proxy::extract::{Findings, VersionInfo};
use command_proxy::tee::TeeScanner;

fn lines(list: &[&[u8]]) -> Vec<Vec<u8>> {
    list.iter().map(|l| l.to_vec()).collect()
}

fn run(path: RunPath, chunks: &[&[u8]]) -> (Vec<u8>, Findings) {
    let mut tee = TeeScanner::new(path);
    let mut console = Vec::new();
    for chunk in chunks {
        for line in tee.feed(chunk) {
            console.extend_from_slice(&line);
        }
    }
    let (rest, found) = tee.finish();
    console.extend_from_slice(&rest);
    (console, found)
}

#[test]
fn whole_lines_come_back_at_once() {
    let mut tee = TeeScanner::new(RunPath::NormalRun);
    assert_eq!(tee.feed(b"one\ntwo\n"), lines(&[b"one\n", b"two\n"]));
    let (rest, _) = tee.finish();
    assert_eq!(rest, b"");
}

#[test]
fn an_unfinished_line_waits_for_its_newline() {
    let mut tee = TeeScanner::new(RunPath::NormalRun);
    assert_eq!(tee.feed(b"he"), lines(&[]));
    assert_eq!(tee.feed(b"llo\nwo"), lines(&[b"hello\n"]));
    assert_eq!(tee.feed(b""), lines(&[]));
    assert_eq!(tee.feed(b"rld"), lines(&[]));
    let (rest, _) = tee.finish();
    assert_eq!(rest, b"world");
}

#[test]
fn empty_lines_are_lines() {
    let mut tee = TeeScanner::new(RunPath::PlainPassthrough);
    assert_eq!(tee.feed(b"\n\na\n\n"), lines(&[b"\n", b"\n", b"a\n", b"\n"]));
    let (rest, found) = tee.finish();
    assert_eq!(rest, b"");
    assert_eq!(found, Findings::new());
}

#[test]
fn carriage_returns_stay_in_the_line() {
    let mut tee = TeeScanner::new(RunPath::NormalRun);
    assert_eq!(tee.feed(b"error[E0308]\r\nnext\r\n"), lines(&[b"error[E0308]\r\n", b"next\r\n"]));
    let (_, found) = tee.finish();
    assert_eq!(found.errors, vec!["E0308".to_string()]);
}

#[test]
fn a_stream_that_never_starts() {
    let (console, found) = run(RunPath::NormalRun, &[]);
    assert_eq!(console, b"");
    assert_eq!(found, Findings::new());
}

#[test]
fn the_console_gets_the_stream_itself() {
    let stream: &[u8] =
        b"warning: \xff\xfe odd bytes\nerror[E0308]: mismatched types\n\n  |\n\r\nlast line, no newline";
    for path in [RunPath::PlainPassthrough, RunPath::VersionQuery, RunPath::NormalRun] {
        for size in 1..=stream.len() {
            let chunks: Vec<&[u8]> = stream.chunks(size).collect();
            let (console, _) = run(path, &chunks);
            assert_eq!(console, stream);
        }
    }
}

#[test]
fn chunking_is_immaterial() {
    let stream: &[u8] = b"error[E0308]: one\nnote: see [E0499] and [E0502]\n\xc3\x28 [E9999]\n[E0001]";
    let (_, whole) = run(RunPath::NormalRun, &[stream]);
    assert_eq!(
        whole.errors,
        vec!["E0308".to_string(), "E0499".to_string(), "E0502".to_string(), "E0001".to_string()]
    );
    for size in 1..=stream.len() {
        let chunks: Vec<&[u8]> = stream.chunks(size).collect();
        let mut tee = TeeScanner::new(RunPath::NormalRun);
        let mut seen = Vec::new();
        for chunk in &chunks {
            seen.extend(tee.feed(chunk));
        }
        assert_eq!(
            seen,
            lines(&[
                b"error[E0308]: one\n",
                b"note: see [E0499] and [E0502]\n",
                b"\xc3\x28 [E9999]\n"
            ])
        );
        let (rest, found) = tee.finish();
        assert_eq!(rest, b"[E0001]");
        assert_eq!(found, whole);
    }
}

#[test]
fn a_code_split_over_two_chunks_is_found() {
    let (console, found) = run(RunPath::NormalRun, &[b"error[E03", b"08]: mismatched", b" types\n"]);
    assert_eq!(console, b"error[E0308]: mismatched types\n");
    assert_eq!(found.errors, vec!["E0308".to_string()]);
}

#[test]
fn a_code_does_not_reach_over_a_line_end() {
    let (console, found) = run(RunPath::NormalRun, &[b"[E03\n08]\n[E1\n", b"234]\n"]);
    assert_eq!(console, b"[E03\n08]\n[E1\n234]\n");
    assert_eq!(found.errors, Vec::<String>::new());
}

#[test]
fn a_last_line_without_newline_is_read_too() {
    let (_, found) = run(RunPath::NormalRun, &[b"a\nerror[E0599]"]);
    assert_eq!(found.errors, vec!["E0599".to_string()]);
    let (console, found) = run(RunPath::VersionQuery, &[b"rustc 1.42.0 (abcdef123 2021-03-01)"]);
    assert_eq!(console, b"rustc 1.42.0 (abcdef123 2021-03-01)");
    assert_eq!(
        found.version,
        Some(VersionInfo {
            version: "1.42.0".to_string(),
            version_hash: "abcdef123".to_string(),
            build_date: "2021-03-01".to_string(),
        })
    );
}

#[test]
fn the_version_path_keeps_the_first_version_line_of_the_stream() {
    let (console, found) = run(
        RunPath::VersionQuery,
        &[b"rustc 1.42.0 (abcdef123 2021-03-01)\nbinary: rustc\nrustc 1.43.0 (0000 2021-04-01)\n"],
    );
    assert_eq!(
        console,
        b"rustc 1.42.0 (abcdef123 2021-03-01)\nbinary: rustc\nrustc 1.43.0 (0000 2021-04-01)\n"
    );
    assert_eq!(found.version.map(|v| v.version), Some("1.42.0".to_string()));
}

#[test]
fn lines_go_out_whether_or_not_they_match() {
    let stream: &[u8] = b"rustc 1.42.0 (abcdef123 2021-03-01)\nerror[E0308]: x\nplain\n";
    let mut seen = Vec::new();
    for path in [RunPath::PlainPassthrough, RunPath::VersionQuery, RunPath::NormalRun] {
        let mut tee = TeeScanner::new(path);
        seen.push(tee.feed(stream));
    }
    assert_eq!(seen[0], seen[1]);
    assert_eq!(seen[1], seen[2]);
    assert_eq!(seen[0].concat(), stream);
}
