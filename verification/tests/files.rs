use line_processor::{
    process_file, run, DirectiveMatcher, FileRead, Invocation, LineRead, Output, Stream,
};

fn matcher() -> DirectiveMatcher {
    DirectiveMatcher::new().expect("the directive pattern compiles")
}

fn out(text: &str) -> Output {
    Output { stream: Stream::Stdout, text: text.to_string() }
}

fn err(text: &str) -> Output {
    Output { stream: Stream::Stderr, text: text.to_string() }
}

fn lines(texts: &[&str]) -> FileRead {
    FileRead::Lines(texts.iter().map(|t| LineRead::Text(t.to_string())).collect())
}

fn filter(text: &str) -> Option<String> {
    Some(text.to_string())
}

fn invocation(inputs: &[&str], verbose: bool, filter: Option<String>) -> Invocation {
    let inputs: Vec<String> = inputs.iter().map(|p| p.to_string()).collect();
    Invocation::new(inputs, verbose, filter).ok().expect("inputs were named")
}

fn sample() -> FileRead {
    lines(&["hello", "printe 'world'", "foo bar"])
}

#[test]
fn file_without_filter_prints_every_line() {
    let printed = process_file(&matcher(), false, &None, "in.txt", sample());
    assert_eq!(
        printed,
        vec![out("hello"), out("world"), out("foo bar"), out("Número de linhas em in.txt: 2")]
    );
}

#[test]
fn file_with_filter_prints_directives_and_matching_lines() {
    let printed = process_file(&matcher(), false, &filter("bar"), "in.txt", sample());
    assert_eq!(printed, vec![out("world"), out("foo bar"), out("Número de linhas em in.txt: 2")]);
}

#[test]
fn missing_file_does_not_stop_the_run() {
    let inv = invocation(&["missing.txt", "in.txt"], false, None);
    let printed = run(&matcher(), &inv, vec![FileRead::Unopened, sample()]);
    assert_eq!(
        printed,
        vec![
            err("Erro ao ler o arquivo: missing.txt"),
            out("hello"),
            out("world"),
            out("foo bar"),
            out("Número de linhas em in.txt: 2"),
        ]
    );
}

#[test]
fn missing_file_after_a_good_one_is_reported_last() {
    let inv = invocation(&["in.txt", "missing.txt"], false, None);
    let printed = run(&matcher(), &inv, vec![sample(), FileRead::Unopened]);
    assert_eq!(
        printed,
        vec![
            out("hello"),
            out("world"),
            out("foo bar"),
            out("Número de linhas em in.txt: 2"),
            err("Erro ao ler o arquivo: missing.txt"),
        ]
    );
}

#[test]
fn empty_directive_prints_an_empty_line() {
    let printed = process_file(&matcher(), false, &None, "in.txt", lines(&["printe ''"]));
    assert_eq!(printed, vec![out(""), out("Número de linhas em in.txt: 0")]);
    let printed = process_file(&matcher(), false, &None, "in.txt", lines(&["a", "printe ''", "b"]));
    assert_eq!(printed, vec![out("a"), out(""), out("b"), out("Número de linhas em in.txt: 2")]);
}

#[test]
fn verbose_run_announces_every_file_before_its_lines() {
    let inv = invocation(&["a.txt", "gone.txt", "b.txt"], true, None);
    let reads = vec![lines(&["one"]), FileRead::Unopened, lines(&["printe 'two'"])];
    assert_eq!(
        run(&matcher(), &inv, reads),
        vec![
            out("Processando arquivo: a.txt"),
            out("one"),
            out("Número de linhas em a.txt: 1"),
            out("Processando arquivo: gone.txt"),
            err("Erro ao ler o arquivo: gone.txt"),
            out("Processando arquivo: b.txt"),
            out("two"),
            out("Número de linhas em b.txt: 0"),
        ]
    );
}

#[test]
fn verbose_file_is_announced_once() {
    let printed = process_file(&matcher(), true, &None, "in.txt", sample());
    assert_eq!(
        printed,
        vec![
            out("Processando arquivo: in.txt"),
            out("hello"),
            out("world"),
            out("foo bar"),
            out("Número de linhas em in.txt: 2"),
        ]
    );
}

#[test]
fn file_without_directives_reports_all_its_lines() {
    let texts = ["a", "", "b b", "printe", "printe 'open", "'quoted'", "last"];
    let read = lines(&texts);
    for f in [None, filter(""), filter("b"), filter("no such text")] {
        let printed = process_file(&matcher(), false, &f, "plain.txt", read.clone());
        assert_eq!(printed.last(), Some(&out("Número de linhas em plain.txt: 7")));
    }
}

#[test]
fn long_file_reports_its_length() {
    let read = FileRead::Lines((0..1234).map(|i| LineRead::Text(format!("line {}", i))).collect());
    let printed = process_file(&matcher(), false, &filter("line 12"), "long.txt", read);
    assert_eq!(printed.last(), Some(&out("Número de linhas em long.txt: 1234")));
    assert_eq!(printed.len(), 1 + 10 + 34 + 1);
    assert_eq!(printed[0], out("line 12"));
    assert_eq!(printed[1], out("line 120"));
}

#[test]
fn empty_filter_prints_every_line_without_directive() {
    let texts = ["a", "", "b b", "printe 'open", "last"];
    let printed = process_file(&matcher(), false, &filter(""), "plain.txt", lines(&texts));
    assert_eq!(
        printed,
        vec![
            out("a"),
            out(""),
            out("b b"),
            out("printe 'open"),
            out("last"),
            out("Número de linhas em plain.txt: 5"),
        ]
    );
}

#[test]
fn absent_and_empty_filter_agree_on_files() {
    let reads = [
        sample(),
        lines(&[]),
        lines(&["printe ''", "x"]),
        FileRead::Unopened,
        FileRead::Lines(vec![LineRead::Unreadable, LineRead::Text("y".to_string())]),
    ];
    for read in reads {
        for verbose in [false, true] {
            assert_eq!(
                process_file(&matcher(), verbose, &None, "f.txt", read.clone()),
                process_file(&matcher(), verbose, &filter(""), "f.txt", read.clone())
            );
        }
    }
}

#[test]
fn absent_and_empty_filter_agree_on_runs() {
    let reads = vec![sample(), FileRead::Unopened, lines(&["printe 'z'"])];
    let paths = ["a.txt", "b.txt", "c.txt"];
    assert_eq!(
        run(&matcher(), &invocation(&paths, true, None), reads.clone()),
        run(&matcher(), &invocation(&paths, true, filter("")), reads)
    );
}

#[test]
fn second_pass_over_a_file_prints_the_same() {
    let m = matcher();
    for f in [None, filter("bar"), filter("")] {
        let first = process_file(&m, true, &f, "in.txt", sample());
        let second = process_file(&m, true, &f, "in.txt", sample());
        assert_eq!(first, second);
    }
}

#[test]
fn file_named_twice_is_printed_twice() {
    let inv = invocation(&["in.txt", "in.txt"], false, filter("o"));
    let once = process_file(&matcher(), false, &filter("o"), "in.txt", sample());
    assert_eq!(
        once,
        vec![out("hello"), out("world"), out("foo bar"), out("Número de linhas em in.txt: 2")]
    );
    let mut twice = once.clone();
    twice.extend(once);
    assert_eq!(run(&matcher(), &inv, vec![sample(), sample()]), twice);
}

#[test]
fn output_of_a_file_does_not_depend_on_its_neighbours() {
    let m = matcher();
    let alone = process_file(&m, true, &filter("bar"), "a.txt", sample());
    let neighbours = [
        FileRead::Unopened,
        lines(&[]),
        lines(&["bar", "printe 'bar'", "x"]),
        FileRead::Lines(vec![LineRead::Unreadable]),
    ];
    for other in neighbours {
        let before = process_file(&m, true, &filter("bar"), "b.txt", other.clone());
        let inv = invocation(&["b.txt", "a.txt", "b.txt"], true, filter("bar"));
        let printed = run(&m, &inv, vec![other.clone(), sample(), other]);
        assert_eq!(printed.len(), 2 * before.len() + alone.len());
        assert_eq!(printed[..before.len()], before[..]);
        assert_eq!(printed[before.len()..before.len() + alone.len()], alone[..]);
        assert_eq!(printed[before.len() + alone.len()..], before[..]);
    }
}

#[test]
fn unreadable_lines_are_neither_printed_nor_counted() {
    let read = FileRead::Lines(vec![
        LineRead::Text("one".to_string()),
        LineRead::Unreadable,
        LineRead::Text("two".to_string()),
        LineRead::Unreadable,
    ]);
    let printed = process_file(&matcher(), false, &None, "in.txt", read);
    assert_eq!(printed, vec![out("one"), out("two"), out("Número de linhas em in.txt: 2")]);
}

#[test]
fn empty_file_prints_only_its_count() {
    let printed = process_file(&matcher(), false, &None, "empty.txt", lines(&[]));
    assert_eq!(printed, vec![out("Número de linhas em empty.txt: 0")]);
}

#[test]
fn unopened_file_prints_only_the_failure() {
    let printed = process_file(&matcher(), false, &filter("x"), "gone.txt", FileRead::Unopened);
    assert_eq!(printed, vec![err("Erro ao ler o arquivo: gone.txt")]);
}

#[test]
fn file_of_directives_reports_zero() {
    let read = lines(&["printe 'a'", "x printe\t'b' y", "printe  ''"]);
    let printed = process_file(&matcher(), false, &filter("never"), "d.txt", read);
    assert_eq!(printed, vec![out("a"), out("b"), out(""), out("Número de linhas em d.txt: 0")]);
}

#[test]
fn filter_that_matches_nothing_leaves_the_count() {
    let printed = process_file(&matcher(), false, &filter("zzz"), "in.txt", sample());
    assert_eq!(printed, vec![out("world"), out("Número de linhas em in.txt: 2")]);
}

#[test]
fn run_over_one_file_is_that_file() {
    let inv = invocation(&["in.txt"], true, filter("bar"));
    assert_eq!(
        run(&matcher(), &inv, vec![sample()]),
        process_file(&matcher(), true, &filter("bar"), "in.txt", sample())
    );
}
