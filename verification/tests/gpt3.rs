use tarot_bot::gpt3::{
    Choice, Client, CompletionRequest, CompletionResponse, Exchange, NetworkError,
    NetworkErrorKind,
};

fn choice(text: &str, index: i32) -> Choice {
    Choice { text: text.to_string(), index, finish_reason: "stop".to_string() }
}

fn response(choices: Vec<Choice>) -> CompletionResponse {
    CompletionResponse {
        id: "cmpl-1".to_string(),
        object: "text_completion".to_string(),
        created: 1_700_000_000,
        model: "text-davinci-003".to_string(),
        choices,
    }
}

#[test]
fn client_keeps_its_token() {
    let client = Client::new("sk-test".to_string());
    assert_eq!(client.token, "sk-test");
}

#[test]
fn post_goes_to_the_completions_address_with_the_token_and_the_request() {
    let client = Client::new("sk-test".to_string());
    let request = CompletionRequest {
        model: "m".to_string(),
        prompt: "p".to_string(),
        max_tokens: 16,
    };
    let post = client.post(&request);
    assert_eq!(post.url, "https://api.openai.com/v1/completions");
    assert_eq!(post.bearer_token, "sk-test");
    assert_eq!(post.body, request);
}

#[test]
fn duplicate_asks_for_the_same() {
    let request = CompletionRequest {
        model: "text-davinci-003".to_string(),
        prompt: "Give me a Tarot Reading".to_string(),
        max_tokens: 512,
    };
    assert_eq!(request.duplicate(), request);
}

#[test]
fn completion_hands_on_the_answer_as_it_came() {
    let client = Client::new("sk-test".to_string());
    let answer = response(vec![choice("The Fool signifies new beginnings.", 0), choice("x", 1)]);
    let result = client.completion(Exchange::Answered(answer.clone()));
    assert_eq!(result, Ok(answer));
    assert_eq!(result.unwrap().choices[0].text, "The Fool signifies new beginnings.");
}

#[test]
fn completion_hands_on_an_answer_without_choices() {
    let client = Client::new("sk-test".to_string());
    let result = client.completion(Exchange::Answered(response(vec![])));
    assert_eq!(result, Ok(response(vec![])));
}

#[test]
fn completion_of_a_malformed_body_is_a_decode_error() {
    let client = Client::new("sk-test".to_string());
    let result = client.completion(Exchange::Malformed("expected value at line 1".to_string()));
    assert_eq!(
        result,
        Err(NetworkError {
            kind: NetworkErrorKind::Decode,
            message: "expected value at line 1".to_string(),
        })
    );
}

#[test]
fn completion_of_a_failed_transport_is_a_transport_error() {
    let client = Client::new("sk-test".to_string());
    let result = client.completion(Exchange::Unreachable("connection refused".to_string()));
    assert_eq!(
        result,
        Err(NetworkError {
            kind: NetworkErrorKind::Transport,
            message: "connection refused".to_string(),
        })
    );
}

#[test]
fn first_text_is_the_first_choice_untrimmed() {
    let answer = response(vec![choice("\n\n  The Tower.  \n", 0), choice("other", 1)]);
    assert_eq!(answer.first_text(), Ok("\n\n  The Tower.  \n".to_string()));
}

#[test]
fn first_text_of_no_choices_is_an_error() {
    assert_eq!(
        response(vec![]).first_text(),
        Err(NetworkError {
            kind: NetworkErrorKind::NoChoices,
            message: "the completion holds no choices".to_string(),
        })
    );
}
