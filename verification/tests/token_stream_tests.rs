use std::str::FromStr;
use tokenizers::Tokenizer;
use grpc_vision_svc::token_stream::TokenOutputStream;

const TOKENIZER_JSON: &str = r#"{
    "model": {
        "vocab": {
            "male": 0,
            "bring": 1,
            "goals": 2,
            "mexico": 3,
            "problem": 4
        },
        "merges": []
    }
}"#;

fn test_tokenizer() -> Tokenizer {
    Tokenizer::from_str(TOKENIZER_JSON).unwrap()
}

#[test]
fn test_token_output_stream_next_token() {
    let mut tos = TokenOutputStream::new(test_tokenizer());
    assert_eq!(tos.next_token(2).unwrap(), Some(String::from("goals")));
    assert_eq!(tos.next_token(4).unwrap(), Some(String::from(" problem")));
    assert!(tos.next_token(5).unwrap().is_none()); // Non-existent token
}

#[test]
fn test_token_output_stream_decode_rest() {
    let tos = TokenOutputStream::from_parts(test_tokenizer(), vec![1, 2, 3, 4, 0], 1, 2);
    assert_eq!(
        tos.decode_rest().unwrap(),
        Some(String::from(" mexico problem male"))
    );
}

#[test]
fn test_token_output_stream_decode_all() {
    let mut tos = TokenOutputStream::new(test_tokenizer());
    tos.next_token(0).unwrap(); // "male"
    tos.next_token(1).unwrap(); // "bring"
    tos.next_token(2).unwrap(); // "goals"
    tos.next_token(10).unwrap(); // Non-existent token (None)
    assert_eq!(tos.decode_all().unwrap(), "male bring goals");
}

#[test]
fn test_token_output_stream_get_token() {
    let tos = TokenOutputStream::new(test_tokenizer());
    assert_eq!(tos.get_token("mexico"), Some(3));
    assert!(tos.get_token("mexican").is_none());
}

#[test]
fn stream_concat_equals_whole_decode() {
    // Feeding a sequence one token at a time and concatenating every
    // released fragment, flush included, renders the whole decode at once.
    let tokenizer = Tokenizer::from_str(
        r#"{
        "model": {
            "vocab": { "hello": 1, "world": 2, "everybody": 3 },
            "merges": []
        }
    }"#,
    )
    .unwrap();
    let mut stream = TokenOutputStream::new(tokenizer);
    let tokens: [u32; 4] = [1, 2, 1, 3];

    let mut sent = String::new();
    for token in tokens {
        if let Some(fragment) = stream.next_token(token).unwrap() {
            sent.push_str(&fragment);
        }
    }
    if let Some(fragment) = stream.decode_rest().unwrap() {
        sent.push_str(&fragment);
    }

    assert_eq!(sent, "hello world hello everybody");
    assert_eq!(stream.decode_all().unwrap(), sent);
}

#[test]
fn fragments_are_never_reemitted() {
    // Two consecutive releases are disjoint: the second fragment starts
    // where the first ended.
    let mut tos = TokenOutputStream::new(test_tokenizer());
    let first = tos.next_token(3).unwrap().unwrap();
    assert_eq!(first, "mexico");
    let second = tos.next_token(4).unwrap().unwrap();
    assert_eq!(second, " problem");
    assert_eq!(tos.decode_all().unwrap(), "mexico problem");
}

#[test]
fn clear_resets_the_stream() {
    let mut tos = TokenOutputStream::new(test_tokenizer());
    tos.next_token(0).unwrap();
    tos.next_token(1).unwrap();
    tos.clear();
    assert_eq!(tos.decode_all().unwrap(), "");
    assert!(tos.decode_rest().unwrap().is_none());
    assert_eq!(tos.next_token(2).unwrap(), Some(String::from("goals")));
}

#[test]
fn into_inner_returns_the_tokenizer() {
    let tos = TokenOutputStream::new(test_tokenizer());
    let tokenizer = tos.into_inner();
    let decoded = tokenizer.decode(&[0, 4], true).unwrap();
    assert_eq!(decoded, "male problem");
}

#[test]
fn tokenizer_accessor_reads_the_vocabulary() {
    let tos = TokenOutputStream::new(test_tokenizer());
    assert_eq!(tos.tokenizer().get_vocab(true).get("goals").copied(), Some(2));
}

#[test]
fn non_alphanumeric_tail_is_withheld_until_flush() {
    // The candidate text grows but ends in punctuation: the push withholds
    // it, and only the flush releases the buffered tail.
    let tokenizer = Tokenizer::from_str(
        r#"{
        "model": {
            "vocab": { "fin": 0, "end.": 1 },
            "merges": []
        }
    }"#,
    )
    .unwrap();
    let mut tos = TokenOutputStream::new(tokenizer);
    assert_eq!(tos.next_token(0).unwrap(), Some(String::from("fin")));
    assert_eq!(tos.next_token(1).unwrap(), None);
    assert_eq!(tos.decode_rest().unwrap(), Some(String::from(" end.")));
}
