use uhm::io::{ReadSource, StringWriter, WriteTarget};
use uhm::record::{Recorder, Step};

#[test]
fn sources_and_targets() {
    let s = ReadSource::Stdin;
    assert!(s.is_stdin() && !s.is_file());
    let f = ReadSource::File("a.json".to_string());
    assert!(f.is_file() && !f.is_stdin());
    assert_eq!(s.map("stdin", |p: &String| p.as_str()), "stdin");
    assert_eq!(f.map("stdin", |p: &String| p.as_str()), "a.json");
    assert_eq!(s.map_or(|| 1, |p: &String| p.len()), 1);
    assert_eq!(f.map_or(|| 1, |p: &String| p.len()), 6);
    let d = s.clone().descriptor("x".to_string());
    assert_eq!((d.name.as_str(), d.content.as_str()), ("[stdin]", "x"));
    let d = f.clone().descriptor("y".to_string());
    assert_eq!((d.name.as_str(), d.content.as_str()), ("a.json", "y"));
    assert!(WriteTarget::from(s.clone()).is_stdout());
    let t = WriteTarget::Stdout;
    assert!(t.is_stdout() && !t.is_file());
    let d = t.clone().descriptor("z".to_string());
    assert_eq!(d.name, "[stdout]");
    let g = WriteTarget::File("o.tex".to_string());
    assert!(g.is_file());
    assert_eq!(g.map("stdout", |p: &String| p.as_str()), "o.tex");
    assert_eq!(t.map_or(|| 0, |p: &String| p.len()), 0);
    let back: ReadSource = g.into();
    assert!(matches!(back, ReadSource::File(p) if p == "o.tex"));
}

#[test]
fn string_writer() {
    let mut w = StringWriter::from("ab");
    w.write_str("cd");
    assert_eq!(w.get(), "abcd");
    w.clear();
    assert_eq!(w.get(), "");
    let mut w = StringWriter::new();
    w.write_str("x");
    assert_eq!(w.get(), "x");
}

#[test]
fn recorder_marks_moments_until_enter() {
    let mut r = Recorder::new(1000);
    assert_eq!(r.on_key(false, 1250), Step::Continue);
    assert_eq!(r.on_key(false, 1300), Step::Continue);
    assert_eq!(r.on_key(true, 5000), Step::Stop);
    assert_eq!(r.offsets, vec![250, 50]);
    assert_eq!(r.prev, 1300);
    assert_eq!(r.count(), 2);
}
