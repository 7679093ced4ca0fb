use fasttext::buffer::{BufferAction, BufferCall, BufferReply};
use fasttext::encode::encode_text;
use fasttext::error::{FastTextError, ProtocolViolation, TextArgument};
use fasttext::handle::FastText;
use fasttext::protocol::{handle_result, NativeResult};
use fasttext::vector::{dimension_from_reply, finish_vector, vector_len};

fn live(addr: usize) -> FastText {
    FastText::new(NativeResult { result: addr, error: None }).expect("a non-null handle")
}

fn ok_reply(count: usize) -> BufferReply {
    BufferReply { error: None, null_payload: false, count }
}

/// Drives a buffer call as the embedding program does, counting the frees.
fn drive<R: Clone>(reply: BufferReply, native: &[R]) -> (Result<Vec<R>, FastTextError>, Vec<usize>) {
    let mut call: BufferCall<R> = BufferCall::new();
    let mut frees = Vec::new();
    let mut reply = Some(reply);
    loop {
        match call.next_action() {
            BufferAction::Invoke => call.on_reply(reply.take().expect("one reply")),
            BufferAction::Copy(n) => call.on_copied(native[..n].to_vec()),
            BufferAction::Free(n) => {
                frees.push(n);
                call.on_freed();
            }
            BufferAction::Finish => return (call.into_result(), frees),
        }
    }
}

#[test]
fn encode_appends_terminator() {
    assert_eq!(encode_text("king", TextArgument::Word), Ok(vec![b'k', b'i', b'n', b'g', 0]));
    assert_eq!(encode_text("", TextArgument::Text), Ok(vec![0]));
    assert_eq!(encode_text("é", TextArgument::Text), Ok(vec![0xc3, 0xa9, 0]));
}

#[test]
fn encode_reports_first_nul() {
    assert_eq!(encode_text("ab\0c\0", TextArgument::Text), Err(FastTextError::Encoding(TextArgument::Text, 2)));
    assert_eq!(encode_text("\0", TextArgument::Path), Err(FastTextError::Encoding(TextArgument::Path, 0)));
}

#[test]
fn adapter_prefers_error() {
    let ok: NativeResult<i32> = NativeResult { result: 1567, error: None };
    assert_eq!(handle_result(ok), Ok(1567));
    let bad: NativeResult<i32> = NativeResult { result: 7, error: Some("boom".to_string()) };
    assert_eq!(handle_result(bad), Err(FastTextError::Native("boom".to_string())));
}

#[test]
fn new_takes_live_handle() {
    let ft = live(0x1000);
    assert!(ft.is_live());
    assert_eq!(ft.get_dimension().handle, 0x1000);
}

#[test]
fn new_fails_on_null_or_error() {
    let null = FastText::new(NativeResult { result: 0, error: None });
    assert_eq!(null.unwrap_err(), FastTextError::Allocation(None));
    let err = FastText::new(NativeResult { result: 0x10, error: Some("out of memory".to_string()) });
    assert_eq!(err.unwrap_err(), FastTextError::Allocation(Some("out of memory".to_string())));
}

#[test]
fn release_is_idempotent() {
    let mut ft = live(0x2000);
    assert_eq!(ft.release(), Some(0x2000));
    assert!(!ft.is_live());
    assert_eq!(ft.release(), None);
    assert_eq!(ft.release(), None);
}

#[test]
fn load_model_encodes_path() {
    let mut ft = live(0x3000);
    let call = ft.load_model("tests/fixtures/cooking.model.bin").unwrap();
    assert_eq!(call.handle, 0x3000);
    assert_eq!(call.text, b"tests/fixtures/cooking.model.bin\0".to_vec());
    assert_eq!(ft.load_model("bad\0path").unwrap_err(), FastTextError::Encoding(TextArgument::Path, 3));
    assert_eq!(ft.save_model("out.bin").unwrap().text, b"out.bin\0".to_vec());
}

#[test]
fn load_model_from_buffer_passes_length() {
    let mut ft = live(0x3100);
    let data = vec![1u8, 2, 3, 4, 5];
    let call = ft.load_model_from_buffer(&data);
    assert_eq!(call.handle, 0x3100);
    assert_eq!(call.len, 5);
}

#[test]
fn wrong_format_is_native_error_and_handle_stays_usable() {
    let mut ft = live(0x4000);
    let _call = ft.load_model("tests/fixtures/invalid.model.bin").unwrap();
    let reply: NativeResult<()> = NativeResult {
        result: (),
        error: Some("tests/fixtures/invalid.model.bin has wrong file format!".to_string()),
    };
    assert_eq!(
        handle_result(reply),
        Err(FastTextError::Native(
            "tests/fixtures/invalid.model.bin has wrong file format!".to_string()
        ))
    );
    assert!(ft.is_live());
    let again = ft.load_model("tests/fixtures/cooking.model.bin").unwrap();
    assert_eq!(again.handle, 0x4000);
    assert_eq!(handle_result(NativeResult { result: (), error: None }), Ok(()));
}

#[test]
fn predict_returns_two_ordered_labels() {
    let ft = live(0x5000);
    let call = ft.predict("Which baking dish is best to bake a banana bread ?", 2).unwrap();
    assert_eq!(call.k, 2);
    assert_eq!(call.handle, 0x5000);
    assert_eq!(call.text.last(), Some(&0u8));
    let native = vec![(0.85f32, "__label__baking".to_string()), (0.12f32, "__label__bread".to_string())];
    let (out, frees) = drive(ok_reply(2), &native);
    let preds = out.unwrap();
    assert_eq!(2, preds.len());
    assert_eq!("__label__baking", &preds[0].1);
    assert_eq!("__label__bread", &preds[1].1);
    assert!(preds[0].0 >= preds[1].0);
    assert_eq!(frees, vec![2]);
}

#[test]
fn nn_keeps_native_ranking_of_three() {
    let ft = live(0x6000);
    let call = ft.get_nn("King", 3).unwrap();
    assert_eq!(call.text, b"King\0".to_vec());
    let native = vec![
        (0.9f32, "University".to_string()),
        (0.8f32, "city".to_string()),
        (0.7f32, "won".to_string()),
    ];
    let (out, frees) = drive(ok_reply(3), &native);
    let nn = out.unwrap();
    assert_eq!(nn, native);
    assert!(nn[0].0 >= nn[1].0 && nn[1].0 >= nn[2].0);
    assert_eq!(frees, vec![3]);
}

#[test]
fn analogies_encode_three_words() {
    let ft = live(0x7000);
    let call = ft.get_analogies(3, "king", "queen", "man").unwrap();
    assert_eq!(call.k, 3);
    assert_eq!(call.word_a, b"king\0".to_vec());
    assert_eq!(call.word_b, b"queen\0".to_vec());
    assert_eq!(call.word_c, b"man\0".to_vec());
    assert_eq!(ft.get_analogies(3, "king", "qu\0een", "m\0an").unwrap_err(), FastTextError::Encoding(TextArgument::WordB, 2));
    let native = vec![(0.5f32, "dallas".to_string()), (0.4f32, "temps".to_string()), (0.3f32, "Giro".to_string())];
    let (out, frees) = drive(ok_reply(3), &native);
    assert_eq!(out.unwrap()[2].1, "Giro");
    assert_eq!(frees, vec![3]);
}

#[test]
fn native_error_frees_nothing() {
    let reply = BufferReply { error: Some("no model".to_string()), null_payload: false, count: 4 };
    let (out, frees) = drive::<(f32, String)>(reply, &[]);
    assert_eq!(out, Err(FastTextError::Native("no model".to_string())));
    assert!(frees.is_empty());
}

#[test]
fn null_buffer_with_count_is_protocol_error() {
    let reply = BufferReply { error: None, null_payload: true, count: 2 };
    let (out, frees) = drive::<(f32, String)>(reply, &[]);
    assert_eq!(out, Err(FastTextError::Protocol(ProtocolViolation::NullBufferWithCount(2))));
    assert!(frees.is_empty());
}

#[test]
fn null_buffer_without_count_is_empty() {
    let reply = BufferReply { error: None, null_payload: true, count: 0 };
    let (out, frees) = drive::<(f32, String)>(reply, &[]);
    assert_eq!(out, Ok(vec![]));
    assert!(frees.is_empty());
}

#[test]
fn empty_native_buffer_is_still_freed() {
    let (out, frees) = drive::<(f32, String)>(ok_reply(0), &[]);
    assert_eq!(out, Ok(vec![]));
    assert_eq!(frees, vec![0]);
}

#[test]
fn buffer_call_asks_copy_before_free() {
    let mut call: BufferCall<u32> = BufferCall::new();
    assert_eq!(call.next_action(), BufferAction::Invoke);
    call.on_reply(ok_reply(2));
    assert_eq!(call.next_action(), BufferAction::Copy(2));
    call.on_copied(vec![10, 20]);
    assert_eq!(call.next_action(), BufferAction::Free(2));
    call.on_freed();
    assert_eq!(call.next_action(), BufferAction::Finish);
    assert_eq!(call.into_result(), Ok(vec![10, 20]));
}

#[test]
fn ids_use_encoded_word() {
    let ft = live(0x8000);
    assert_eq!(ft.get_word_id("king").unwrap().text, b"king\0".to_vec());
    assert_eq!(ft.get_subword_id("king").unwrap().handle, 0x8000);
    assert_eq!(handle_result(NativeResult { result: 743833, error: None }), Ok(743833));
}

#[test]
fn dimension_reply() {
    assert_eq!(dimension_from_reply(NativeResult { result: 16, error: None }), Ok(16));
    assert_eq!(dimension_from_reply(NativeResult { result: -1, error: None }), Ok(-1));
    assert_eq!(
        dimension_from_reply(NativeResult { result: 16, error: Some("no model".to_string()) }),
        Err(FastTextError::Native("no model".to_string()))
    );
}

#[test]
fn word_vector_has_model_dimension() {
    let ft = live(0x9000);
    let call = ft.get_word_vector("king").unwrap();
    assert_eq!(call.text, b"king\0".to_vec());
    let dim = vector_len(dimension_from_reply(NativeResult { result: 16, error: None }).unwrap()).unwrap();
    let mut filled = vec![0.0f32; dim];
    filled[0] = -0.23979793;
    let v = finish_vector(dim, filled, NativeResult { result: (), error: None }).unwrap();
    assert_eq!(v.len(), 16);
    assert_eq!(v[0], -0.23979793);
}

#[test]
fn sentence_vector_error_is_native() {
    let ft = live(0x9100);
    let call = ft.get_sentence_vector("king is to queen as man is to ?").unwrap();
    assert_eq!(call.text.len(), "king is to queen as man is to ?".len() + 1);
    let out = finish_vector(4, vec![0.0f32; 4], NativeResult { result: (), error: Some("dim".to_string()) });
    assert_eq!(out, Err(FastTextError::Native("dim".to_string())));
}

#[test]
fn vector_len_refuses_negative_dimension() {
    assert_eq!(vector_len(16), Ok(16));
    assert_eq!(vector_len(0), Ok(0));
    assert_eq!(vector_len(-3), Err(FastTextError::Protocol(ProtocolViolation::NegativeDimension(-3))));
}

#[test]
fn encoding_error_names_argument() {
    let ft = live(0xa000);
    assert_eq!(ft.get_word_id("k\0").unwrap_err(), FastTextError::Encoding(TextArgument::Word, 1));
    assert_eq!(ft.predict("\0x", 1).unwrap_err(), FastTextError::Encoding(TextArgument::Text, 0));
    assert_eq!(ft.get_analogies(1, "\0", "b", "c").unwrap_err(), FastTextError::Encoding(TextArgument::WordA, 0));
    assert_eq!(ft.get_analogies(1, "a", "b", "cc\0").unwrap_err(), FastTextError::Encoding(TextArgument::WordC, 2));
}
