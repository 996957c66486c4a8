//! Task levels (triage, status, size) and tasks.
use vstd::prelude::*;

use crate::text::str_eq;

verus! {

/// How urgent a task is.
#[derive(Clone, Copy, Debug, PartialEq, Eq, Structural)]
pub enum TaskTriage {
    Low,
    Medium,
    High,
    Urgent,
}

impl TaskTriage {
    /// The number that stands for the level in stored databases.
    pub open spec fn repr_spec(self) -> i32 {
        match self {
            TaskTriage::Low => 0,
            TaskTriage::Medium => 1,
            TaskTriage::High => 2,
            TaskTriage::Urgent => 3,
        }
    }

    /// The level's name, as typed on the command line and shown to the user.
    pub open spec fn name_spec(self) -> Seq<char> {
        match self {
            TaskTriage::Low => "Low"@,
            TaskTriage::Medium => "Medium"@,
            TaskTriage::High => "High"@,
            TaskTriage::Urgent => "Urgent"@,
        }
    }

    /// The level numbered `r`, if there is one.
    pub open spec fn from_repr_spec(r: i32) -> Option<TaskTriage> {
        if exists|v: TaskTriage| v.repr_spec() == r {
            Some(choose|v: TaskTriage| v.repr_spec() == r)
        } else {
            None
        }
    }

    /// The level named exactly `s`, if there is one.
    pub open spec fn from_name_spec(s: Seq<char>) -> Option<TaskTriage> {
        if exists|v: TaskTriage| v.name_spec() == s {
            Some(choose|v: TaskTriage| v.name_spec() == s)
        } else {
            None
        }
    }

    /// Distinct levels have distinct numbers and distinct names.
    pub proof fn codes_distinct(v: TaskTriage, w: TaskTriage)
        ensures
            v.repr_spec() == w.repr_spec() ==> v == w,
            v.name_spec() == w.name_spec() ==> v == w,
    {
        reveal_strlit("Low");
        reveal_strlit("Medium");
        reveal_strlit("High");
        reveal_strlit("Urgent");
        assert("Low"@.len() != "Medium"@.len());
        assert("Low"@.len() != "High"@.len());
        assert("Low"@.len() != "Urgent"@.len());
        assert("Medium"@.len() != "High"@.len());
        assert("Medium"@[0] != "Urgent"@[0]);
        assert("High"@.len() != "Urgent"@.len());
    }

    /// All levels, in declaration order.
    pub open spec fn all() -> Seq<TaskTriage> {
        seq![TaskTriage::Low, TaskTriage::Medium, TaskTriage::High, TaskTriage::Urgent]
    }

    /// The number that stands for the level in stored databases.
    pub fn repr(&self) -> (r: i32)
        ensures
            r == self.repr_spec(),
    {
        match self {
            TaskTriage::Low => 0,
            TaskTriage::Medium => 1,
            TaskTriage::High => 2,
            TaskTriage::Urgent => 3,
        }
    }

    /// The level whose number is `r`, if there is one.
    pub fn from_repr(r: i32) -> (res: Option<TaskTriage>)
        ensures
            res == Self::from_repr_spec(r),
    {
        proof {
            assert forall|v: TaskTriage, w: TaskTriage| v.repr_spec() == w.repr_spec() implies v == w by {
                Self::codes_distinct(v, w);
            }
        }
        if r == 0 {
            assert(TaskTriage::Low.repr_spec() == r);
            Some(TaskTriage::Low)
        } else if r == 1 {
            assert(TaskTriage::Medium.repr_spec() == r);
            Some(TaskTriage::Medium)
        } else if r == 2 {
            assert(TaskTriage::High.repr_spec() == r);
            Some(TaskTriage::High)
        } else if r == 3 {
            assert(TaskTriage::Urgent.repr_spec() == r);
            Some(TaskTriage::Urgent)
        } else {
            assert forall|v: TaskTriage| v.repr_spec() != r by {
                match v {
                    TaskTriage::Low => {},
                    TaskTriage::Medium => {},
                    TaskTriage::High => {},
                    TaskTriage::Urgent => {},
                }
            }
            None
        }
    }

    /// The level's name.
    pub fn name(&self) -> (s: &'static str)
        ensures
            s@ == self.name_spec(),
    {
        match self {
            TaskTriage::Low => "Low",
            TaskTriage::Medium => "Medium",
            TaskTriage::High => "High",
            TaskTriage::Urgent => "Urgent",
        }
    }

    /// The level whose name is `s`, if there is one; names are matched exactly.
    pub fn parse(s: &str) -> (res: Option<TaskTriage>)
        ensures
            res == Self::from_name_spec(s@),
    {
        proof {
            assert forall|v: TaskTriage, w: TaskTriage| v.name_spec() == w.name_spec() implies v == w by {
                Self::codes_distinct(v, w);
            }
        }
        if str_eq(s, "Low") {
            assert(TaskTriage::Low.name_spec() == s@);
            Some(TaskTriage::Low)
        } else if str_eq(s, "Medium") {
            assert(TaskTriage::Medium.name_spec() == s@);
            Some(TaskTriage::Medium)
        } else if str_eq(s, "High") {
            assert(TaskTriage::High.name_spec() == s@);
            Some(TaskTriage::High)
        } else if str_eq(s, "Urgent") {
            assert(TaskTriage::Urgent.name_spec() == s@);
            Some(TaskTriage::Urgent)
        } else {
            assert forall|v: TaskTriage| v.name_spec() != s@ by {
                match v {
                    TaskTriage::Low => {},
                    TaskTriage::Medium => {},
                    TaskTriage::High => {},
                    TaskTriage::Urgent => {},
                }
            }
            None
        }
    }

    /// The names of all levels, in declaration order.
    pub fn variants() -> (names: Vec<&'static str>)
        ensures
            names@.len() == Self::all().len(),
            forall|i: int| 0 <= i < names@.len() ==> #[trigger] names@[i]@ == Self::all()[i].name_spec(),
    {
        let names: Vec<&'static str> = vec!["Low", "Medium", "High", "Urgent"];
        names
    }
}

/// Reading a triage level back from its number, or from its name, gives that
/// level; a number or a name is read as a level only if it is that level's.
pub proof fn triage_codes_identify(v: TaskTriage, r: i32, s: Seq<char>)
    ensures
        TaskTriage::from_repr_spec(v.repr_spec()) == Some(v),
        TaskTriage::from_name_spec(v.name_spec()) == Some(v),
        TaskTriage::from_repr_spec(r) matches Some(w) ==> w.repr_spec() == r,
        TaskTriage::from_name_spec(s) matches Some(w) ==> w.name_spec() == s,
{
    assert forall|w: TaskTriage| w.repr_spec() == v.repr_spec() implies w == v by {
        TaskTriage::codes_distinct(v, w);
    }
    assert forall|w: TaskTriage| w.name_spec() == v.name_spec() implies w == v by {
        TaskTriage::codes_distinct(v, w);
    }
}


/// How far along a task is.
#[derive(Clone, Copy, Debug, PartialEq, Eq, Structural)]
pub enum TaskStatus {
    Todo,
    InProgress,
    Done,
}

impl TaskStatus {
    /// The number that stands for the level in stored databases.
    pub open spec fn repr_spec(self) -> i32 {
        match self {
            TaskStatus::Todo => 0,
            TaskStatus::InProgress => 1,
            TaskStatus::Done => 2,
        }
    }

    /// The level's name, as typed on the command line and shown to the user.
    pub open spec fn name_spec(self) -> Seq<char> {
        match self {
            TaskStatus::Todo => "Todo"@,
            TaskStatus::InProgress => "InProgress"@,
            TaskStatus::Done => "Done"@,
        }
    }

    /// The level numbered `r`, if there is one.
    pub open spec fn from_repr_spec(r: i32) -> Option<TaskStatus> {
        if exists|v: TaskStatus| v.repr_spec() == r {
            Some(choose|v: TaskStatus| v.repr_spec() == r)
        } else {
            None
        }
    }

    /// The level named exactly `s`, if there is one.
    pub open spec fn from_name_spec(s: Seq<char>) -> Option<TaskStatus> {
        if exists|v: TaskStatus| v.name_spec() == s {
            Some(choose|v: TaskStatus| v.name_spec() == s)
        } else {
            None
        }
    }

    /// Distinct levels have distinct numbers and distinct names.
    pub proof fn codes_distinct(v: TaskStatus, w: TaskStatus)
        ensures
            v.repr_spec() == w.repr_spec() ==> v == w,
            v.name_spec() == w.name_spec() ==> v == w,
    {
        reveal_strlit("Todo");
        reveal_strlit("InProgress");
        reveal_strlit("Done");
        assert("Todo"@.len() != "InProgress"@.len());
        assert("Todo"@[0] != "Done"@[0]);
        assert("InProgress"@.len() != "Done"@.len());
    }

    /// All levels, in declaration order.
    pub open spec fn all() -> Seq<TaskStatus> {
        seq![TaskStatus::Todo, TaskStatus::InProgress, TaskStatus::Done]
    }

    /// The number that stands for the level in stored databases.
    pub fn repr(&self) -> (r: i32)
        ensures
            r == self.repr_spec(),
    {
        match self {
            TaskStatus::Todo => 0,
            TaskStatus::InProgress => 1,
            TaskStatus::Done => 2,
        }
    }

    /// The level whose number is `r`, if there is one.
    pub fn from_repr(r: i32) -> (res: Option<TaskStatus>)
        ensures
            res == Self::from_repr_spec(r),
    {
        proof {
            assert forall|v: TaskStatus, w: TaskStatus| v.repr_spec() == w.repr_spec() implies v == w by {
                Self::codes_distinct(v, w);
            }
        }
        if r == 0 {
            assert(TaskStatus::Todo.repr_spec() == r);
            Some(TaskStatus::Todo)
        } else if r == 1 {
            assert(TaskStatus::InProgress.repr_spec() == r);
            Some(TaskStatus::InProgress)
        } else if r == 2 {
            assert(TaskStatus::Done.repr_spec() == r);
            Some(TaskStatus::Done)
        } else {
            assert forall|v: TaskStatus| v.repr_spec() != r by {
                match v {
                    TaskStatus::Todo => {},
                    TaskStatus::InProgress => {},
                    TaskStatus::Done => {},
                }
            }
            None
        }
    }

    /// The level's name.
    pub fn name(&self) -> (s: &'static str)
        ensures
            s@ == self.name_spec(),
    {
        match self {
            TaskStatus::Todo => "Todo",
            TaskStatus::InProgress => "InProgress",
            TaskStatus::Done => "Done",
        }
    }

    /// The level whose name is `s`, if there is one; names are matched exactly.
    pub fn parse(s: &str) -> (res: Option<TaskStatus>)
        ensures
            res == Self::from_name_spec(s@),
    {
        proof {
            assert forall|v: TaskStatus, w: TaskStatus| v.name_spec() == w.name_spec() implies v == w by {
                Self::codes_distinct(v, w);
            }
        }
        if str_eq(s, "Todo") {
            assert(TaskStatus::Todo.name_spec() == s@);
            Some(TaskStatus::Todo)
        } else if str_eq(s, "InProgress") {
            assert(TaskStatus::InProgress.name_spec() == s@);
            Some(TaskStatus::InProgress)
        } else if str_eq(s, "Done") {
            assert(TaskStatus::Done.name_spec() == s@);
            Some(TaskStatus::Done)
        } else {
            assert forall|v: TaskStatus| v.name_spec() != s@ by {
                match v {
                    TaskStatus::Todo => {},
                    TaskStatus::InProgress => {},
                    TaskStatus::Done => {},
                }
            }
            None
        }
    }

    /// The names of all levels, in declaration order.
    pub fn variants() -> (names: Vec<&'static str>)
        ensures
            names@.len() == Self::all().len(),
            forall|i: int| 0 <= i < names@.len() ==> #[trigger] names@[i]@ == Self::all()[i].name_spec(),
    {
        let names: Vec<&'static str> = vec!["Todo", "InProgress", "Done"];
        names
    }
}

/// Reading a status level back from its number, or from its name, gives that
/// level; a number or a name is read as a level only if it is that level's.
pub proof fn status_codes_identify(v: TaskStatus, r: i32, s: Seq<char>)
    ensures
        TaskStatus::from_repr_spec(v.repr_spec()) == Some(v),
        TaskStatus::from_name_spec(v.name_spec()) == Some(v),
        TaskStatus::from_repr_spec(r) matches Some(w) ==> w.repr_spec() == r,
        TaskStatus::from_name_spec(s) matches Some(w) ==> w.name_spec() == s,
{
    assert forall|w: TaskStatus| w.repr_spec() == v.repr_spec() implies w == v by {
        TaskStatus::codes_distinct(v, w);
    }
    assert forall|w: TaskStatus| w.name_spec() == v.name_spec() implies w == v by {
        TaskStatus::codes_distinct(v, w);
    }
}


/// How much work a task is.
#[derive(Clone, Copy, Debug, PartialEq, Eq, Structural)]
pub enum TaskSize {
    XXS,
    XS,
    S,
    M,
    L,
    XL,
    XXL,
}

impl TaskSize {
    /// The number that stands for the level in stored databases.
    pub open spec fn repr_spec(self) -> i32 {
        match self {
            TaskSize::XXS => 0,
            TaskSize::XS => 1,
            TaskSize::S => 3,
            TaskSize::M => 4,
            TaskSize::L => 5,
            TaskSize::XL => 6,
            TaskSize::XXL => 7,
        }
    }

    /// The level's name, as typed on the command line and shown to the user.
    pub open spec fn name_spec(self) -> Seq<char> {
        match self {
            TaskSize::XXS => "XXS"@,
            TaskSize::XS => "XS"@,
            TaskSize::S => "S"@,
            TaskSize::M => "M"@,
            TaskSize::L => "L"@,
            TaskSize::XL => "XL"@,
            TaskSize::XXL => "XXL"@,
        }
    }

    /// The level numbered `r`, if there is one.
    pub open spec fn from_repr_spec(r: i32) -> Option<TaskSize> {
        if exists|v: TaskSize| v.repr_spec() == r {
            Some(choose|v: TaskSize| v.repr_spec() == r)
        } else {
            None
        }
    }

    /// The level named exactly `s`, if there is one.
    pub open spec fn from_name_spec(s: Seq<char>) -> Option<TaskSize> {
        if exists|v: TaskSize| v.name_spec() == s {
            Some(choose|v: TaskSize| v.name_spec() == s)
        } else {
            None
        }
    }

    /// Distinct levels have distinct numbers and distinct names.
    pub proof fn codes_distinct(v: TaskSize, w: TaskSize)
        ensures
            v.repr_spec() == w.repr_spec() ==> v == w,
            v.name_spec() == w.name_spec() ==> v == w,
    {
        reveal_strlit("XXS");
        reveal_strlit("XS");
        reveal_strlit("S");
        reveal_strlit("M");
        reveal_strlit("L");
        reveal_strlit("XL");
        reveal_strlit("XXL");
        assert("XXS"@.len() != "XS"@.len());
        assert("XXS"@.len() != "S"@.len());
        assert("XXS"@.len() != "M"@.len());
        assert("XXS"@.len() != "L"@.len());
        assert("XXS"@.len() != "XL"@.len());
        assert("XXS"@[2] != "XXL"@[2]);
        assert("XS"@.len() != "S"@.len());
        assert("XS"@.len() != "M"@.len());
        assert("XS"@.len() != "L"@.len());
        assert("XS"@[1] != "XL"@[1]);
        assert("XS"@.len() != "XXL"@.len());
        assert("S"@[0] != "M"@[0]);
        assert("S"@[0] != "L"@[0]);
        assert("S"@.len() != "XL"@.len());
        assert("S"@.len() != "XXL"@.len());
        assert("M"@[0] != "L"@[0]);
        assert("M"@.len() != "XL"@.len());
        assert("M"@.len() != "XXL"@.len());
        assert("L"@.len() != "XL"@.len());
        assert("L"@.len() != "XXL"@.len());
        assert("XL"@.len() != "XXL"@.len());
    }

    /// All levels, in declaration order.
    pub open spec fn all() -> Seq<TaskSize> {
        seq![TaskSize::XXS, TaskSize::XS, TaskSize::S, TaskSize::M, TaskSize::L, TaskSize::XL, TaskSize::XXL]
    }

    /// The number that stands for the level in stored databases.
    pub fn repr(&self) -> (r: i32)
        ensures
            r == self.repr_spec(),
    {
        match self {
            TaskSize::XXS => 0,
            TaskSize::XS => 1,
            TaskSize::S => 3,
            TaskSize::M => 4,
            TaskSize::L => 5,
            TaskSize::XL => 6,
            TaskSize::XXL => 7,
        }
    }

    /// The level whose number is `r`, if there is one.
    pub fn from_repr(r: i32) -> (res: Option<TaskSize>)
        ensures
            res == Self::from_repr_spec(r),
    {
        proof {
            assert forall|v: TaskSize, w: TaskSize| v.repr_spec() == w.repr_spec() implies v == w by {
                Self::codes_distinct(v, w);
            }
        }
        if r == 0 {
            assert(TaskSize::XXS.repr_spec() == r);
            Some(TaskSize::XXS)
        } else if r == 1 {
            assert(TaskSize::XS.repr_spec() == r);
            Some(TaskSize::XS)
        } else if r == 3 {
            assert(TaskSize::S.repr_spec() == r);
            Some(TaskSize::S)
        } else if r == 4 {
            assert(TaskSize::M.repr_spec() == r);
            Some(TaskSize::M)
        } else if r == 5 {
            assert(TaskSize::L.repr_spec() == r);
            Some(TaskSize::L)
        } else if r == 6 {
            assert(TaskSize::XL.repr_spec() == r);
            Some(TaskSize::XL)
        } else if r == 7 {
            assert(TaskSize::XXL.repr_spec() == r);
            Some(TaskSize::XXL)
        } else {
            assert forall|v: TaskSize| v.repr_spec() != r by {
                match v {
                    TaskSize::XXS => {},
                    TaskSize::XS => {},
                    TaskSize::S => {},
                    TaskSize::M => {},
                    TaskSize::L => {},
                    TaskSize::XL => {},
                    TaskSize::XXL => {},
                }
            }
            None
        }
    }

    /// The level's name.
    pub fn name(&self) -> (s: &'static str)
        ensures
            s@ == self.name_spec(),
    {
        match self {
            TaskSize::XXS => "XXS",
            TaskSize::XS => "XS",
            TaskSize::S => "S",
            TaskSize::M => "M",
            TaskSize::L => "L",
            TaskSize::XL => "XL",
            TaskSize::XXL => "XXL",
        }
    }

    /// The level whose name is `s`, if there is one; names are matched exactly.
    pub fn parse(s: &str) -> (res: Option<TaskSize>)
        ensures
            res == Self::from_name_spec(s@),
    {
        proof {
            assert forall|v: TaskSize, w: TaskSize| v.name_spec() == w.name_spec() implies v == w by {
                Self::codes_distinct(v, w);
            }
        }
        if str_eq(s, "XXS") {
            assert(TaskSize::XXS.name_spec() == s@);
            Some(TaskSize::XXS)
        } else if str_eq(s, "XS") {
            assert(TaskSize::XS.name_spec() == s@);
            Some(TaskSize::XS)
        } else if str_eq(s, "S") {
            assert(TaskSize::S.name_spec() == s@);
            Some(TaskSize::S)
        } else if str_eq(s, "M") {
            assert(TaskSize::M.name_spec() == s@);
            Some(TaskSize::M)
        } else if str_eq(s, "L") {
            assert(TaskSize::L.name_spec() == s@);
            Some(TaskSize::L)
        } else if str_eq(s, "XL") {
            assert(TaskSize::XL.name_spec() == s@);
            Some(TaskSize::XL)
        } else if str_eq(s, "XXL") {
            assert(TaskSize::XXL.name_spec() == s@);
            Some(TaskSize::XXL)
        } else {
            assert forall|v: TaskSize| v.name_spec() != s@ by {
                match v {
                    TaskSize::XXS => {},
                    TaskSize::XS => {},
                    TaskSize::S => {},
                    TaskSize::M => {},
                    TaskSize::L => {},
                    TaskSize::XL => {},
                    TaskSize::XXL => {},
                }
            }
            None
        }
    }

    /// The names of all levels, in declaration order.
    pub fn variants() -> (names: Vec<&'static str>)
        ensures
            names@.len() == Self::all().len(),
            forall|i: int| 0 <= i < names@.len() ==> #[trigger] names@[i]@ == Self::all()[i].name_spec(),
    {
        let names: Vec<&'static str> = vec!["XXS", "XS", "S", "M", "L", "XL", "XXL"];
        names
    }
}

/// Reading a size level back from its number, or from its name, gives that
/// level; a number or a name is read as a level only if it is that level's.
pub proof fn size_codes_identify(v: TaskSize, r: i32, s: Seq<char>)
    ensures
        TaskSize::from_repr_spec(v.repr_spec()) == Some(v),
        TaskSize::from_name_spec(v.name_spec()) == Some(v),
        TaskSize::from_repr_spec(r) matches Some(w) ==> w.repr_spec() == r,
        TaskSize::from_name_spec(s) matches Some(w) ==> w.name_spec() == s,
{
    assert forall|w: TaskSize| w.repr_spec() == v.repr_spec() implies w == v by {
        TaskSize::codes_distinct(v, w);
    }
    assert forall|w: TaskSize| w.name_spec() == v.name_spec() implies w == v by {
        TaskSize::codes_distinct(v, w);
    }
}

} // verus!

verus! {

/// What a task is, as values.
pub struct TaskView {
    pub name: Seq<char>,
    pub triage: TaskTriage,
    pub status: TaskStatus,
    pub size: TaskSize,
    pub hash: Option<Seq<char>>,
}

impl TaskView {
    /// The same task with `hash` as its hash.
    pub open spec fn with_hash(self, hash: Option<Seq<char>>) -> TaskView {
        TaskView { name: self.name, triage: self.triage, status: self.status, size: self.size, hash }
    }
}

/// A task: a name, three levels and, once it has been added to a database,
/// a hash that tells it apart.
pub struct Task {
    pub name: String,
    pub triage: TaskTriage,
    pub status: TaskStatus,
    pub size: TaskSize,
    pub hash: Option<String>,
}

impl View for Task {
    type V = TaskView;

    open spec fn view(&self) -> TaskView {
        TaskView {
            name: self.name@,
            triage: self.triage,
            status: self.status,
            size: self.size,
            hash: self.hash.deep_view(),
        }
    }
}

impl Task {
    /// A task that has no hash yet.
    pub fn new(name: String, triage: TaskTriage, status: TaskStatus, size: TaskSize) -> (t: Task)
        ensures
            t@ == (TaskView { name: name@, triage, status, size, hash: None }),
    {
        Task { name, triage, status, size, hash: None }
    }
}

} // verus!

verus! {
/// The position of a triage level in the list of names is its number, so
/// picking the i-th name gives the level numbered i.
pub proof fn triage_position_is_number(i: int)
    requires
        0 <= i < TaskTriage::all().len(),
    ensures
        TaskTriage::all()[i].repr_spec() == i,
{
}

/// The position of a status in the list of names is its number, so picking
/// the i-th name gives the status numbered i.
pub proof fn status_position_is_number(i: int)
    requires
        0 <= i < TaskStatus::all().len(),
    ensures
        TaskStatus::all()[i].repr_spec() == i,
{
}

/// For the two smallest sizes, the position in the list of names is the
/// size's number; the sizes after them are numbered from 3 on.
pub proof fn size_position_is_number(i: int)
    requires
        0 <= i < 2,
    ensures
        TaskSize::all()[i].repr_spec() == i,
{
}

/// The stored numbers and the names of the triage levels, as the tracker's
/// databases and command line use them, and the order in which they are
/// offered: every triage level, its number and its name.
pub proof fn triage_table()
    ensures
        TaskTriage::Low.repr_spec() == 0,
        TaskTriage::Low.name_spec() == "Low"@,
        TaskTriage::from_repr_spec(0) == Some(TaskTriage::Low),
        TaskTriage::from_name_spec("Low"@) == Some(TaskTriage::Low),
        TaskTriage::Medium.repr_spec() == 1,
        TaskTriage::Medium.name_spec() == "Medium"@,
        TaskTriage::from_repr_spec(1) == Some(TaskTriage::Medium),
        TaskTriage::from_name_spec("Medium"@) == Some(TaskTriage::Medium),
        TaskTriage::High.repr_spec() == 2,
        TaskTriage::High.name_spec() == "High"@,
        TaskTriage::from_repr_spec(2) == Some(TaskTriage::High),
        TaskTriage::from_name_spec("High"@) == Some(TaskTriage::High),
        TaskTriage::Urgent.repr_spec() == 3,
        TaskTriage::Urgent.name_spec() == "Urgent"@,
        TaskTriage::from_repr_spec(3) == Some(TaskTriage::Urgent),
        TaskTriage::from_name_spec("Urgent"@) == Some(TaskTriage::Urgent),
        TaskTriage::all() == seq![TaskTriage::Low, TaskTriage::Medium, TaskTriage::High, TaskTriage::Urgent],
        forall|v: TaskTriage| TaskTriage::all().contains(v),
{
    triage_codes_identify(TaskTriage::Low, 0, seq![]);
    triage_codes_identify(TaskTriage::Medium, 0, seq![]);
    triage_codes_identify(TaskTriage::High, 0, seq![]);
    triage_codes_identify(TaskTriage::Urgent, 0, seq![]);
    assert forall|v: TaskTriage| TaskTriage::all().contains(v) by {
        match v {
            TaskTriage::Low => { assert(TaskTriage::all()[0] == v); },
            TaskTriage::Medium => { assert(TaskTriage::all()[1] == v); },
            TaskTriage::High => { assert(TaskTriage::all()[2] == v); },
            TaskTriage::Urgent => { assert(TaskTriage::all()[3] == v); },
        }
    }
}

/// The stored numbers and the names of the statuses, as the tracker's
/// databases and command line use them, and the order in which they are
/// offered: every status level, its number and its name.
pub proof fn status_table()
    ensures
        TaskStatus::Todo.repr_spec() == 0,
        TaskStatus::Todo.name_spec() == "Todo"@,
        TaskStatus::from_repr_spec(0) == Some(TaskStatus::Todo),
        TaskStatus::from_name_spec("Todo"@) == Some(TaskStatus::Todo),
        TaskStatus::InProgress.repr_spec() == 1,
        TaskStatus::InProgress.name_spec() == "InProgress"@,
        TaskStatus::from_repr_spec(1) == Some(TaskStatus::InProgress),
        TaskStatus::from_name_spec("InProgress"@) == Some(TaskStatus::InProgress),
        TaskStatus::Done.repr_spec() == 2,
        TaskStatus::Done.name_spec() == "Done"@,
        TaskStatus::from_repr_spec(2) == Some(TaskStatus::Done),
        TaskStatus::from_name_spec("Done"@) == Some(TaskStatus::Done),
        TaskStatus::all() == seq![TaskStatus::Todo, TaskStatus::InProgress, TaskStatus::Done],
        forall|v: TaskStatus| TaskStatus::all().contains(v),
{
    status_codes_identify(TaskStatus::Todo, 0, seq![]);
    status_codes_identify(TaskStatus::InProgress, 0, seq![]);
    status_codes_identify(TaskStatus::Done, 0, seq![]);
    assert forall|v: TaskStatus| TaskStatus::all().contains(v) by {
        match v {
            TaskStatus::Todo => { assert(TaskStatus::all()[0] == v); },
            TaskStatus::InProgress => { assert(TaskStatus::all()[1] == v); },
            TaskStatus::Done => { assert(TaskStatus::all()[2] == v); },
        }
    }
}

/// The stored numbers and the names of the sizes, as the tracker's
/// databases and command line use them, and the order in which they are
/// offered: every size level, its number and its name.
pub proof fn size_table()
    ensures
        TaskSize::XXS.repr_spec() == 0,
        TaskSize::XXS.name_spec() == "XXS"@,
        TaskSize::from_repr_spec(0) == Some(TaskSize::XXS),
        TaskSize::from_name_spec("XXS"@) == Some(TaskSize::XXS),
        TaskSize::XS.repr_spec() == 1,
        TaskSize::XS.name_spec() == "XS"@,
        TaskSize::from_repr_spec(1) == Some(TaskSize::XS),
        TaskSize::from_name_spec("XS"@) == Some(TaskSize::XS),
        TaskSize::S.repr_spec() == 3,
        TaskSize::S.name_spec() == "S"@,
        TaskSize::from_repr_spec(3) == Some(TaskSize::S),
        TaskSize::from_name_spec("S"@) == Some(TaskSize::S),
        TaskSize::M.repr_spec() == 4,
        TaskSize::M.name_spec() == "M"@,
        TaskSize::from_repr_spec(4) == Some(TaskSize::M),
        TaskSize::from_name_spec("M"@) == Some(TaskSize::M),
        TaskSize::L.repr_spec() == 5,
        TaskSize::L.name_spec() == "L"@,
        TaskSize::from_repr_spec(5) == Some(TaskSize::L),
        TaskSize::from_name_spec("L"@) == Some(TaskSize::L),
        TaskSize::XL.repr_spec() == 6,
        TaskSize::XL.name_spec() == "XL"@,
        TaskSize::from_repr_spec(6) == Some(TaskSize::XL),
        TaskSize::from_name_spec("XL"@) == Some(TaskSize::XL),
        TaskSize::XXL.repr_spec() == 7,
        TaskSize::XXL.name_spec() == "XXL"@,
        TaskSize::from_repr_spec(7) == Some(TaskSize::XXL),
        TaskSize::from_name_spec("XXL"@) == Some(TaskSize::XXL),
        TaskSize::all() == seq![TaskSize::XXS, TaskSize::XS, TaskSize::S, TaskSize::M, TaskSize::L, TaskSize::XL, TaskSize::XXL],
        forall|v: TaskSize| TaskSize::all().contains(v),
{
    size_codes_identify(TaskSize::XXS, 0, seq![]);
    size_codes_identify(TaskSize::XS, 0, seq![]);
    size_codes_identify(TaskSize::S, 0, seq![]);
    size_codes_identify(TaskSize::M, 0, seq![]);
    size_codes_identify(TaskSize::L, 0, seq![]);
    size_codes_identify(TaskSize::XL, 0, seq![]);
    size_codes_identify(TaskSize::XXL, 0, seq![]);
    assert forall|v: TaskSize| TaskSize::all().contains(v) by {
        match v {
            TaskSize::XXS => { assert(TaskSize::all()[0] == v); },
            TaskSize::XS => { assert(TaskSize::all()[1] == v); },
            TaskSize::S => { assert(TaskSize::all()[2] == v); },
            TaskSize::M => { assert(TaskSize::all()[3] == v); },
            TaskSize::L => { assert(TaskSize::all()[4] == v); },
            TaskSize::XL => { assert(TaskSize::all()[5] == v); },
            TaskSize::XXL => { assert(TaskSize::all()[6] == v); },
        }
    }
}

/// Sizes are numbered in the order they are offered: the two smallest are
/// 0 and 1, and from `S` on, the i-th size is numbered i + 1.
pub proof fn size_numbering(i: int)
    requires
        0 <= i < TaskSize::all().len(),
    ensures
        TaskSize::all()[i].repr_spec() == (if i < 2 { i } else { i + 1 }),
        forall|j: int| 0 <= j < i ==> #[trigger] TaskSize::all()[j].repr_spec() < TaskSize::all()[i].repr_spec(),
{
}

} // verus!
