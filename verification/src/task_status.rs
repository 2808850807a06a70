use vstd::prelude::*;
use vstd::std_specs::cmp::PartialEqSpecImpl;
use crate::status::{str_eq, StatusKind};

verus! {

/// The workflow state of a task.
#[derive(Debug, Clone, Copy, Eq)]
pub enum TaskStatus {
    Todo,
    InProgress,
    Blocked,
    InReview,
    Completed,
    OnHold,
    Canceled,
}

impl PartialEqSpecImpl for TaskStatus {
    open spec fn obeys_eq_spec() -> bool {
        true
    }

    open spec fn eq_spec(&self, other: &Self) -> bool {
        *self == *other
    }
}

impl PartialEq for TaskStatus {
    fn eq(&self, other: &Self) -> (r: bool) {
        proof {
            Self::rank_tells_apart(*self, *other);
        }
        self.rank() == other.rank()
    }
}

impl TaskStatus {
    /// The position of a state in display order.
    pub open spec fn spec_rank(self) -> int {
        match self {
            TaskStatus::Todo => 0,
            TaskStatus::InProgress => 1,
            TaskStatus::Blocked => 2,
            TaskStatus::InReview => 3,
            TaskStatus::Completed => 4,
            TaskStatus::OnHold => 5,
            TaskStatus::Canceled => 6,
        }
    }

    /// Two states with the same position are the same state.
    pub proof fn rank_tells_apart(a: TaskStatus, b: TaskStatus)
        ensures
            (a.spec_rank() == b.spec_rank()) == (a == b),
            0 <= a.spec_rank() < 7,
    {
        match a {
            TaskStatus::Todo => {
                assert(b.spec_rank() == 0 ==> b == TaskStatus::Todo);
            },
            TaskStatus::InProgress => {
                assert(b.spec_rank() == 1 ==> b == TaskStatus::InProgress);
            },
            TaskStatus::Blocked => {
                assert(b.spec_rank() == 2 ==> b == TaskStatus::Blocked);
            },
            TaskStatus::InReview => {
                assert(b.spec_rank() == 3 ==> b == TaskStatus::InReview);
            },
            TaskStatus::Completed => {
                assert(b.spec_rank() == 4 ==> b == TaskStatus::Completed);
            },
            TaskStatus::OnHold => {
                assert(b.spec_rank() == 5 ==> b == TaskStatus::OnHold);
            },
            TaskStatus::Canceled => {
                assert(b.spec_rank() == 6 ==> b == TaskStatus::Canceled);
            },
        }
    }

    /// The position of this state in display order.
    pub fn rank(&self) -> (r: u8)
        ensures
            r == self.spec_rank(),
    {
        match self {
            TaskStatus::Todo => 0,
            TaskStatus::InProgress => 1,
            TaskStatus::Blocked => 2,
            TaskStatus::InReview => 3,
            TaskStatus::Completed => 4,
            TaskStatus::OnHold => 5,
            TaskStatus::Canceled => 6,
        }
    }

    /// The state whose label is `s`, if there is one.
    pub open spec fn spec_parse(s: Seq<char>) -> Option<TaskStatus> {
        if s == "Todo"@ {
            Some(TaskStatus::Todo)
        } else if s == "In Progress"@ {
            Some(TaskStatus::InProgress)
        } else if s == "Blocked"@ {
            Some(TaskStatus::Blocked)
        } else if s == "In Review"@ {
            Some(TaskStatus::InReview)
        } else if s == "Completed"@ {
            Some(TaskStatus::Completed)
        } else if s == "On Hold"@ {
            Some(TaskStatus::OnHold)
        } else if s == "Canceled"@ {
            Some(TaskStatus::Canceled)
        } else {
            None
        }
    }

    /// Reads a state from its label. Any other text is refused, with a message that
    /// quotes it.
    pub fn from_str(input: &str) -> (r: Result<TaskStatus, String>)
        ensures
            match r {
                Ok(status) => Self::spec_parse(input@) == Some(status),
                Err(message) => Self::spec_parse(input@).is_none() && message@
                    == "Invalid task status: "@ + input@,
            },
    {
        if str_eq(input, "Todo") {
            Ok(TaskStatus::Todo)
        } else if str_eq(input, "In Progress") {
            Ok(TaskStatus::InProgress)
        } else if str_eq(input, "Blocked") {
            Ok(TaskStatus::Blocked)
        } else if str_eq(input, "In Review") {
            Ok(TaskStatus::InReview)
        } else if str_eq(input, "Completed") {
            Ok(TaskStatus::Completed)
        } else if str_eq(input, "On Hold") {
            Ok(TaskStatus::OnHold)
        } else if str_eq(input, "Canceled") {
            Ok(TaskStatus::Canceled)
        } else {
            Err(String::from_str("Invalid task status: ").concat(input))
        }
    }

    /// The label of this state as an owned string.
    pub fn to_string(&self) -> (r: String)
        ensures
            r@ == self.spec_label(),
    {
        String::from_str(self.label())
    }

    /// Reading a state's label gives the state back.
    pub proof fn label_round_trip(status: TaskStatus)
        ensures
            Self::spec_parse(status.spec_label()) == Some(status),
    {
        reveal_strlit("Todo");
        reveal_strlit("In Progress");
        reveal_strlit("Blocked");
        reveal_strlit("In Review");
        reveal_strlit("Completed");
        reveal_strlit("On Hold");
        reveal_strlit("Canceled");
        assert("Todo"@.len() == 4);
        assert("In Progress"@.len() == 11);
        assert("Blocked"@.len() == 7);
        assert("In Review"@.len() == 9);
        assert("Completed"@.len() == 9);
        assert("On Hold"@.len() == 7);
        assert("Canceled"@.len() == 8);
        assert("Todo"@[0] == 'T');
        assert("In Progress"@[0] == 'I');
        assert("Blocked"@[0] == 'B');
        assert("In Review"@[0] == 'I');
        assert("Completed"@[0] == 'C');
        assert("On Hold"@[0] == 'O');
        assert("Canceled"@[0] == 'C');
    }
}

impl std::str::FromStr for TaskStatus {
    type Err = String;

    /// Reads a state from its label, as the function of the same name on the type
    /// does: the state whose label the text is, or else a message that quotes the
    /// text.
    fn from_str(input: &str) -> (r: Result<Self, String>)
        ensures
            match r {
                Ok(status) => Self::spec_parse(input@) == Some(status),
                Err(message) => Self::spec_parse(input@).is_none() && message@
                    == "Invalid task status: "@ + input@,
            },
    {
        TaskStatus::from_str(input)
    }
}

impl StatusKind for TaskStatus {
    open spec fn every() -> Seq<Self> {
        seq![
            TaskStatus::Todo,
            TaskStatus::InProgress,
            TaskStatus::Blocked,
            TaskStatus::InReview,
            TaskStatus::Completed,
            TaskStatus::OnHold,
            TaskStatus::Canceled,
        ]
    }

    open spec fn spec_label(self) -> Seq<char> {
        match self {
            TaskStatus::Todo => "Todo"@,
            TaskStatus::InProgress => "In Progress"@,
            TaskStatus::Blocked => "Blocked"@,
            TaskStatus::InReview => "In Review"@,
            TaskStatus::Completed => "Completed"@,
            TaskStatus::OnHold => "On Hold"@,
            TaskStatus::Canceled => "Canceled"@,
        }
    }

    proof fn every_is_complete() {
        assert forall|s: Self| #[trigger] Self::every().contains(s) by {
            assert(Self::every()[s.spec_rank()] == s);
        }
    }

    proof fn eq_is_identity() {
    }

    fn all() -> (r: Vec<Self>) {
        let r = vec![
            TaskStatus::Todo,
            TaskStatus::InProgress,
            TaskStatus::Blocked,
            TaskStatus::InReview,
            TaskStatus::Completed,
            TaskStatus::OnHold,
            TaskStatus::Canceled,
        ];
        assert(r@ =~= Self::every());
        r
    }

    fn label(&self) -> (r: &'static str) {
        match self {
            TaskStatus::Todo => "Todo",
            TaskStatus::InProgress => "In Progress",
            TaskStatus::Blocked => "Blocked",
            TaskStatus::InReview => "In Review",
            TaskStatus::Completed => "Completed",
            TaskStatus::OnHold => "On Hold",
            TaskStatus::Canceled => "Canceled",
        }
    }
}

} // verus!
