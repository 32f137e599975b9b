use poker_board::util::transaction::retry::{Instruction, RetryPolicy, RetryPolicyService};
use std::time::Duration;

#[test]
pub fn it_should_carry_retry_state_into_next_retry_call() {
    let mut policy = RetryPolicy::new(|previous_instruction: &Option<Instruction>, count: &u8| {
        if *count == 0 {
            Instruction::Retry(Duration::from_secs(1))
        } else {
            assert_eq!(
                previous_instruction,
                &Some(Instruction::Retry(Duration::from_secs(1)))
            );
            Instruction::Abort
        }
    });

    {
        let instruction = policy.retry();
        assert_eq!(instruction, Instruction::Retry(Duration::from_secs(1)));
    }

    let instruction_2 = policy.retry();
    assert_eq!(instruction_2, Instruction::Abort);
}

#[test]
pub fn it_should_generate_retry_policy() {
    let service =
        RetryPolicyService::new(|_previous_instruction: &Option<Instruction>, _count: &u8| {
            Instruction::Abort
        });

    let mut policy = service.generate_policy();

    let instruction = policy.retry();
    assert_eq!(instruction, Instruction::Abort);
}
