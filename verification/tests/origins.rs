use polling::config::frontend_origins;

fn texts(items: &[&str]) -> Vec<String> {
    items.iter().map(|s| s.to_string()).collect()
}

#[test]
fn a_list_of_origins_is_split_at_its_commas() {
    assert_eq!(
        frontend_origins("http://localhost:3000,https://polls.example.com"),
        texts(&["http://localhost:3000", "https://polls.example.com"])
    );
    assert_eq!(frontend_origins("http://13.61.25.120:3002"), texts(&["http://13.61.25.120:3002"]));
}

#[test]
fn empty_pieces_are_kept() {
    assert_eq!(frontend_origins(""), texts(&[""]));
    assert_eq!(frontend_origins(","), texts(&["", ""]));
    assert_eq!(frontend_origins("a,"), texts(&["a", ""]));
    assert_eq!(frontend_origins(",a,,b"), texts(&["", "a", "", "b"]));
}

#[test]
fn pieces_are_taken_as_written() {
    assert_eq!(frontend_origins(" a , b"), texts(&[" a ", " b"]));
    assert_eq!(
        frontend_origins("https://bücher.example,https://例え.jp"),
        texts(&["https://bücher.example", "https://例え.jp"])
    );
    let list = "x,y;z,w";
    let expected: Vec<String> = list.split(',').map(|s| s.to_string()).collect();
    assert_eq!(frontend_origins(list), expected);
}
