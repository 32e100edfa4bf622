use wallet_linker::interpret::{extract_allocation_amount, interpret_eligibility, Verdict};
use wallet_linker::schemas::{Eligibility, JsonData, JsonEligibility, ResponseItem, ResultData};

fn full_item(word: &str) -> Option<ResponseItem> {
    Some(ResponseItem {
        result: Some(ResultData {
            data: Some(JsonData {
                json: Some(JsonEligibility {
                    eligibility: Some(Eligibility { eligibility: Some(word.to_string()) }),
                }),
            }),
        }),
    })
}

#[test]
fn eligibility_empty_response_is_indeterminate() {
    let items = Vec::new();
    assert_eq!(interpret_eligibility(&items), Verdict::Indeterminate);
}

#[test]
fn eligibility_full_chain_eligible() {
    let items = vec![full_item("eligible")];
    assert_eq!(interpret_eligibility(&items), Verdict::Eligible);
}

#[test]
fn eligibility_full_chain_not_eligible() {
    let items = vec![full_item("not-eligible")];
    assert_eq!(interpret_eligibility(&items), Verdict::NotEligible);
}

#[test]
fn eligibility_absent_item_is_indeterminate() {
    let items = vec![None];
    assert_eq!(interpret_eligibility(&items), Verdict::Indeterminate);
}

#[test]
fn eligibility_missing_middle_layer_is_indeterminate() {
    let items = vec![Some(ResponseItem {
        result: Some(ResultData { data: Some(JsonData { json: None }) }),
    })];
    assert_eq!(interpret_eligibility(&items), Verdict::Indeterminate);
    let items = vec![Some(ResponseItem { result: None })];
    assert_eq!(interpret_eligibility(&items), Verdict::Indeterminate);
    let items = vec![Some(ResponseItem {
        result: Some(ResultData {
            data: Some(JsonData {
                json: Some(JsonEligibility {
                    eligibility: Some(Eligibility { eligibility: None }),
                }),
            }),
        }),
    })];
    assert_eq!(interpret_eligibility(&items), Verdict::Indeterminate);
}

#[test]
fn eligibility_only_first_item_counts() {
    let items = vec![None, full_item("eligible")];
    assert_eq!(interpret_eligibility(&items), Verdict::Indeterminate);
}

#[test]
fn allocation_digit_run_ends_at_non_digit() {
    let text = "garbage 2:{\"allocationAmount\":500abc";
    assert_eq!(extract_allocation_amount(text), Some(500));
}

#[test]
fn allocation_without_marker_is_none() {
    assert_eq!(extract_allocation_amount("{\"allocationAmount\":500}"), None);
    assert_eq!(extract_allocation_amount(""), None);
}

#[test]
fn allocation_without_key_is_none() {
    assert_eq!(extract_allocation_amount("2:{\"somethingElse\":500}"), None);
}

#[test]
fn allocation_without_digits_is_none() {
    assert_eq!(extract_allocation_amount("2:{\"allocationAmount\":null}"), None);
}

#[test]
fn allocation_digits_to_end_of_text() {
    assert_eq!(extract_allocation_amount("2:{\"allocationAmount\":123"), Some(123));
}

#[test]
fn allocation_zero_is_present() {
    assert_eq!(extract_allocation_amount("2:{\"allocationAmount\":0}"), Some(0));
}

#[test]
fn allocation_key_before_marker_does_not_count() {
    // The key is searched only after the first marker.
    let text = "{\"allocationAmount\":7} then 2:{\"allocationAmount\":9}";
    assert_eq!(extract_allocation_amount(text), Some(9));
}

#[test]
fn allocation_overflowing_run_is_none() {
    let text = "2:{\"allocationAmount\":99999999999999999999999}";
    assert_eq!(extract_allocation_amount(text), None);
}

#[test]
fn allocation_realistic_stream_payload() {
    let text = "1:{\"other\":1}\n2:{\"wallets\":[{\"allocationAmount\":1500000,\"linked\":true}]}\n3:done";
    assert_eq!(extract_allocation_amount(text), Some(1500000));
}
