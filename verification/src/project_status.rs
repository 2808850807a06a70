use vstd::prelude::*;
use vstd::std_specs::cmp::PartialEqSpecImpl;
use crate::status::{str_eq, StatusKind};

verus! {

/// The stage a project is in.
#[derive(Debug, Clone, Copy, Eq)]
pub enum ProjectStatus {
    Planning,
    Active,
    OnHold,
    Blocked,
    InReview,
    Completed,
    Canceled,
}

impl PartialEqSpecImpl for ProjectStatus {
    open spec fn obeys_eq_spec() -> bool {
        true
    }

    open spec fn eq_spec(&self, other: &Self) -> bool {
        *self == *other
    }
}

impl PartialEq for ProjectStatus {
    fn eq(&self, other: &Self) -> (r: bool) {
        proof {
            Self::rank_tells_apart(*self, *other);
        }
        self.rank() == other.rank()
    }
}

impl ProjectStatus {
    /// The position of a state in display order.
    pub open spec fn spec_rank(self) -> int {
        match self {
            ProjectStatus::Planning => 0,
            ProjectStatus::Active => 1,
            ProjectStatus::OnHold => 2,
            ProjectStatus::Blocked => 3,
            ProjectStatus::InReview => 4,
            ProjectStatus::Completed => 5,
            ProjectStatus::Canceled => 6,
        }
    }

    /// Two states with the same position are the same state.
    pub proof fn rank_tells_apart(a: ProjectStatus, b: ProjectStatus)
        ensures
            (a.spec_rank() == b.spec_rank()) == (a == b),
            0 <= a.spec_rank() < 7,
    {
        match a {
            ProjectStatus::Planning => {
                assert(b.spec_rank() == 0 ==> b == ProjectStatus::Planning);
            },
            ProjectStatus::Active => {
                assert(b.spec_rank() == 1 ==> b == ProjectStatus::Active);
            },
            ProjectStatus::OnHold => {
                assert(b.spec_rank() == 2 ==> b == ProjectStatus::OnHold);
            },
            ProjectStatus::Blocked => {
                assert(b.spec_rank() == 3 ==> b == ProjectStatus::Blocked);
            },
            ProjectStatus::InReview => {
                assert(b.spec_rank() == 4 ==> b == ProjectStatus::InReview);
            },
            ProjectStatus::Completed => {
                assert(b.spec_rank() == 5 ==> b == ProjectStatus::Completed);
            },
            ProjectStatus::Canceled => {
                assert(b.spec_rank() == 6 ==> b == ProjectStatus::Canceled);
            },
        }
    }

    /// The position of this state in display order.
    pub fn rank(&self) -> (r: u8)
        ensures
            r == self.spec_rank(),
    {
        match self {
            ProjectStatus::Planning => 0,
            ProjectStatus::Active => 1,
            ProjectStatus::OnHold => 2,
            ProjectStatus::Blocked => 3,
            ProjectStatus::InReview => 4,
            ProjectStatus::Completed => 5,
            ProjectStatus::Canceled => 6,
        }
    }

    /// The state whose label is `s`, if there is one.
    pub open spec fn spec_parse(s: Seq<char>) -> Option<ProjectStatus> {
        if s == "Planning"@ {
            Some(ProjectStatus::Planning)
        } else if s == "Active"@ {
            Some(ProjectStatus::Active)
        } else if s == "On Hold"@ {
            Some(ProjectStatus::OnHold)
        } else if s == "Blocked"@ {
            Some(ProjectStatus::Blocked)
        } else if s == "In Review"@ {
            Some(ProjectStatus::InReview)
        } else if s == "Completed"@ {
            Some(ProjectStatus::Completed)
        } else if s == "Canceled"@ {
            Some(ProjectStatus::Canceled)
        } else {
            None
        }
    }

    /// Reads a state from its label. Any other text is refused, with a message that
    /// quotes it.
    pub fn from_str(input: &str) -> (r: Result<ProjectStatus, String>)
        ensures
            match r {
                Ok(status) => Self::spec_parse(input@) == Some(status),
                Err(message) => Self::spec_parse(input@).is_none() && message@
                    == "Invalid project status: "@ + input@,
            },
    {
        if str_eq(input, "Planning") {
            Ok(ProjectStatus::Planning)
        } else if str_eq(input, "Active") {
            Ok(ProjectStatus::Active)
        } else if str_eq(input, "On Hold") {
            Ok(ProjectStatus::OnHold)
        } else if str_eq(input, "Blocked") {
            Ok(ProjectStatus::Blocked)
        } else if str_eq(input, "In Review") {
            Ok(ProjectStatus::InReview)
        } else if str_eq(input, "Completed") {
            Ok(ProjectStatus::Completed)
        } else if str_eq(input, "Canceled") {
            Ok(ProjectStatus::Canceled)
        } else {
            Err(String::from_str("Invalid project status: ").concat(input))
        }
    }

    /// The label of this state as an owned string.
    pub fn to_string(&self) -> (r: String)
        ensures
            r@ == self.spec_label(),
    {
        String::from_str(self.label())
    }

    /// Reading a state's label gives the state back.
    pub proof fn label_round_trip(status: ProjectStatus)
        ensures
            Self::spec_parse(status.spec_label()) == Some(status),
    {
        reveal_strlit("Planning");
        reveal_strlit("Active");
        reveal_strlit("On Hold");
        reveal_strlit("Blocked");
        reveal_strlit("In Review");
        reveal_strlit("Completed");
        reveal_strlit("Canceled");
        assert("Planning"@.len() == 8);
        assert("Active"@.len() == 6);
        assert("On Hold"@.len() == 7);
        assert("Blocked"@.len() == 7);
        assert("In Review"@.len() == 9);
        assert("Completed"@.len() == 9);
        assert("Canceled"@.len() == 8);
        assert("Planning"@[0] == 'P');
        assert("Active"@[0] == 'A');
        assert("On Hold"@[0] == 'O');
        assert("Blocked"@[0] == 'B');
        assert("In Review"@[0] == 'I');
        assert("Completed"@[0] == 'C');
        assert("Canceled"@[0] == 'C');
    }
}

impl std::str::FromStr for ProjectStatus {
    type Err = String;

    /// Reads a state from its label, as the function of the same name on the type
    /// does: the state whose label the text is, or else a message that quotes the
    /// text.
    fn from_str(input: &str) -> (r: Result<Self, String>)
        ensures
            match r {
                Ok(status) => Self::spec_parse(input@) == Some(status),
                Err(message) => Self::spec_parse(input@).is_none() && message@
                    == "Invalid project status: "@ + input@,
            },
    {
        ProjectStatus::from_str(input)
    }
}

impl StatusKind for ProjectStatus {
    open spec fn every() -> Seq<Self> {
        seq![
            ProjectStatus::Planning,
            ProjectStatus::Active,
            ProjectStatus::OnHold,
            ProjectStatus::Blocked,
            ProjectStatus::InReview,
            ProjectStatus::Completed,
            ProjectStatus::Canceled,
        ]
    }

    open spec fn spec_label(self) -> Seq<char> {
        match self {
            ProjectStatus::Planning => "Planning"@,
            ProjectStatus::Active => "Active"@,
            ProjectStatus::OnHold => "On Hold"@,
            ProjectStatus::Blocked => "Blocked"@,
            ProjectStatus::InReview => "In Review"@,
            ProjectStatus::Completed => "Completed"@,
            ProjectStatus::Canceled => "Canceled"@,
        }
    }

    proof fn every_is_complete() {
        assert forall|s: Self| #[trigger] Self::every().contains(s) by {
            assert(Self::every()[s.spec_rank()] == s);
        }
    }

    proof fn eq_is_identity() {
    }

    fn all() -> (r: Vec<Self>) {
        let r = vec![
            ProjectStatus::Planning,
            ProjectStatus::Active,
            ProjectStatus::OnHold,
            ProjectStatus::Blocked,
            ProjectStatus::InReview,
            ProjectStatus::Completed,
            ProjectStatus::Canceled,
        ];
        assert(r@ =~= Self::every());
        r
    }

    fn label(&self) -> (r: &'static str) {
        match self {
            ProjectStatus::Planning => "Planning",
            ProjectStatus::Active => "Active",
            ProjectStatus::OnHold => "On Hold",
            ProjectStatus::Blocked => "Blocked",
            ProjectStatus::InReview => "In Review",
            ProjectStatus::Completed => "Completed",
            ProjectStatus::Canceled => "Canceled",
        }
    }
}

} // verus!
