use line_processor::{announcement, open_failure, render_count, summary, Output, Stream};

#[test]
fn counts_are_written_in_decimal() {
    assert_eq!(render_count(0), "0");
    assert_eq!(render_count(7), "7");
    assert_eq!(render_count(9), "9");
    assert_eq!(render_count(10), "10");
    assert_eq!(render_count(42), "42");
    assert_eq!(render_count(100), "100");
    assert_eq!(render_count(1234567890), "1234567890");
    assert_eq!(render_count(u64::MAX), "18446744073709551615");
}

#[test]
fn counts_agree_with_the_standard_rendering() {
    let mut n: u64 = 0;
    while n < 2000 {
        assert_eq!(render_count(n), format!("{}", n));
        n += 1;
    }
    let mut p: u64 = 1;
    while p < u64::MAX / 10 {
        assert_eq!(render_count(p), format!("{}", p));
        assert_eq!(render_count(p - 1), format!("{}", p - 1));
        p *= 10;
    }
}

#[test]
fn announcement_names_the_file() {
    assert_eq!(
        announcement("notes.txt"),
        Output { stream: Stream::Stdout, text: "Processando arquivo: notes.txt".to_string() }
    );
}

#[test]
fn summary_names_the_file_and_its_count() {
    assert_eq!(
        summary("notes.txt", 2),
        Output { stream: Stream::Stdout, text: "Número de linhas em notes.txt: 2".to_string() }
    );
    assert_eq!(
        summary("dir/a b.txt", 0),
        Output { stream: Stream::Stdout, text: "Número de linhas em dir/a b.txt: 0".to_string() }
    );
    assert_eq!(
        summary("", 120),
        Output { stream: Stream::Stdout, text: "Número de linhas em : 120".to_string() }
    );
}

#[test]
fn open_failure_goes_to_standard_error() {
    assert_eq!(
        open_failure("missing.txt"),
        Output { stream: Stream::Stderr, text: "Erro ao ler o arquivo: missing.txt".to_string() }
    );
}
