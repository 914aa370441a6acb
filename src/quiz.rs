use vstd::prelude::*;

verus! {

/// One of the four labelled options of a question.
#[derive(Clone, Copy, Debug, PartialEq, Eq, Structural)]
pub enum Answer {
    A,
    B,
    C,
    D,
}

/// A trivia question: a prompt, four labelled options, and the correct label.
#[derive(Clone, Copy, Debug)]
pub struct Question {
    pub prompt: &'static str,
    pub options: [&'static str; 4],
    pub correct: Answer,
}

/// Length of the question list.
pub const QUESTION_COUNT: usize = 4;

/// The correct label of each question, in list order.
pub open spec fn answer_key(index: int) -> Answer {
    if index == 0 {
        Answer::B
    } else if index == 1 {
        Answer::D
    } else if index == 2 {
        Answer::B
    } else {
        Answer::D
    }
}

/// The question at `index` of the ordered list, if the list is that long.
pub fn question(index: usize) -> (q: Option<Question>)
    ensures
        q is Some <==> index < QUESTION_COUNT,
        q matches Some(q) ==> q.correct == answer_key(index as int),
{
    if index == 0 {
        Some(
            Question {
                prompt: "When was the completed Pokadot mainet launched",
                options: ["A: 2020", "B: 2021", "C: 2022", "D: 2023"],
                correct: Answer::B,
            },
        )
    } else if index == 1 {
        Some(
            Question {
                prompt: "Who is a founder of Pokadot",
                options: [
                    "A:  Elon Musk",
                    "B: Donal Trump",
                    "C: Vitalik Buterin",
                    "D: Gavin James Wood",
                ],
                correct: Answer::D,
            },
        )
    } else if index == 2 {
        Some(
            Question {
                prompt: "What is the capital of France?",
                options: ["A: London", "B: Paris", "C: Berlin", "D: Hanoi"],
                correct: Answer::B,
            },
        )
    } else if index == 3 {
        Some(
            Question {
                prompt: "What is the capital of Vietnam?",
                options: ["A: London", "B: Paris", "C: Berlin", "D: Hanoi"],
                correct: Answer::D,
            },
        )
    } else {
        None
    }
}

} // verus!
