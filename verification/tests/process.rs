use poker_board::util::transaction::process::process;
use poker_board::util::transaction::{NormaliseTo, UpdateWith};

struct Number(i32);

impl NormaliseTo<i32> for Number {
    fn render_normalised(&self) -> i32 {
        self.0.clone()
    }
}

impl UpdateWith<i32> for Number {
    type UpdateResponse = i32;
    fn update_with(&mut self, update_value: i32) -> Self::UpdateResponse {
        self.0 = update_value;
        self.0
    }
}

#[test]
fn test_process() {
    let input = Number(0);
    let operation = |input: &i32| input + 1;
    let result = process(input, &operation);
    assert_eq!(result.value.0, 1);
    assert_eq!(result.update_response, 1);
}
