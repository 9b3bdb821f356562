use mapreduce::map::word_count::{Mapper, WordCountMapper};

fn sorted(mut counts: Vec<(String, u32)>) -> Vec<(String, u32)> {
    counts.sort();
    counts
}

#[test]
fn counts_each_word() {
    let counts = WordCountMapper.map("the cat saw the other cat the end".to_string());
    assert_eq!(
        sorted(counts),
        vec![
            ("cat".to_string(), 2),
            ("end".to_string(), 1),
            ("other".to_string(), 1),
            ("saw".to_string(), 1),
            ("the".to_string(), 3),
        ]
    );
}

#[test]
fn empty_and_blank_lines_have_no_words() {
    assert!(WordCountMapper.map(String::new()).is_empty());
    assert!(WordCountMapper.map("  \t \n ".to_string()).is_empty());
}

#[test]
fn splits_on_unicode_white_space() {
    let line = "a\u{a0}b\u{3000}a\u{2028}c\u{85}a\r\nb";
    let counts = sorted(WordCountMapper.map(line.to_string()));
    assert_eq!(counts, vec![("a".to_string(), 3), ("b".to_string(), 2), ("c".to_string(), 1)]);
    let expected: usize = line.split_whitespace().count();
    assert_eq!(counts.iter().map(|(_, c)| *c as usize).sum::<usize>(), expected);
}

#[test]
fn words_are_case_and_punctuation_sensitive() {
    let counts = sorted(WordCountMapper.map("Word word word, word".to_string()));
    assert_eq!(
        counts,
        vec![("Word".to_string(), 1), ("word".to_string(), 2), ("word,".to_string(), 1)]
    );
}

#[test]
fn agrees_with_split_whitespace() {
    let line = "  leading and trailing  spaces\tand\ttabs  and ünïcödé ünïcödé ";
    let mut expected: Vec<(String, u32)> = Vec::new();
    for word in line.split_whitespace() {
        match expected.iter_mut().find(|(w, _)| w == word) {
            Some(entry) => entry.1 += 1,
            None => expected.push((word.to_string(), 1)),
        }
    }
    assert_eq!(sorted(WordCountMapper.map(line.to_string())), sorted(expected));
}

#[test]
fn count_words_agrees_with_map() {
    let line = "to be or not to be";
    let counts = mapreduce::map::word_count::count_words(line).unwrap();
    assert_eq!(sorted(counts), sorted(WordCountMapper.map(line.to_string())));
    assert_eq!(mapreduce::map::word_count::count_words("").unwrap(), Vec::new());
}

#[test]
fn joined_lines_add_their_counts() {
    let a = "red green red";
    let b = "green blue";
    let count = |counts: &Vec<(String, u32)>, w: &str| {
        counts.iter().find(|(k, _)| k == w).map(|(_, c)| *c).unwrap_or(0)
    };
    let ca = WordCountMapper.map(a.to_string());
    let cb = WordCountMapper.map(b.to_string());
    let ab = WordCountMapper.map(format!("{} {}", a, b));
    let ba = WordCountMapper.map(format!("{} {}", b, a));
    for w in ["red", "green", "blue", "white"] {
        assert_eq!(count(&ab, w), count(&ca, w) + count(&cb, w));
        assert_eq!(count(&ab, w), count(&ba, w));
    }
}
