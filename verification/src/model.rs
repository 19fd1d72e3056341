//! The status and type vocabularies of the service, with the names under
//! which they are stored and exchanged.
use crate::text::str_eq;
use vstd::prelude::*;

verus! {

/// Whether a user account, class or similar record is in use.
#[derive(Clone, Copy, Debug, PartialEq, Eq, Structural)]
pub enum UserStatus {
    Active,
    Disabled,
}

impl UserStatus {
    /// The name under which this value is stored and exchanged.
    pub open spec fn spec_name(self) -> Seq<char> {
        match self {
            UserStatus::Active => "active"@,
            UserStatus::Disabled => "disabled"@,
        }
    }

    /// The value that the name `s` stands for, if any.
    pub open spec fn spec_parse(s: Seq<char>) -> Option<Self> {
        if s == "active"@ {
            Some(UserStatus::Active)
        } else if s == "disabled"@ {
            Some(UserStatus::Disabled)
        } else {
            None
        }
    }

    /// The name under which this value is stored and exchanged.
    pub fn as_str(&self) -> (r: &'static str)
        ensures
            r@ == self.spec_name(),
    {
        match self {
            UserStatus::Active => "active",
            UserStatus::Disabled => "disabled",
        }
    }

    /// Reads a stored name back into a value.
    pub fn parse(s: &str) -> (r: Option<Self>)
        ensures
            r == Self::spec_parse(s@),
    {
        if str_eq(s, "active") {
            Some(UserStatus::Active)
        } else if str_eq(s, "disabled") {
            Some(UserStatus::Disabled)
        } else {
            None
        }
    }

    /// Reading back the name of a value gives that value.
    pub proof fn lemma_parse_name(self)
        ensures
            Self::spec_parse(self.spec_name()) == Some(self),
    {
        reveal_strlit("active");
        reveal_strlit("disabled");
        match self {
            UserStatus::Active => {
            },
            UserStatus::Disabled => {
                assert("disabled"@.len() != "active"@.len());
            },
        }
    }
}

/// Enrolment status of a student.
#[derive(Clone, Copy, Debug, PartialEq, Eq, Structural)]
pub enum StudentStatus {
    Active,
    Suspended,
    Graduated,
    Left,
}

impl StudentStatus {
    /// The name under which this value is stored and exchanged.
    pub open spec fn spec_name(self) -> Seq<char> {
        match self {
            StudentStatus::Active => "active"@,
            StudentStatus::Suspended => "suspended"@,
            StudentStatus::Graduated => "graduated"@,
            StudentStatus::Left => "left"@,
        }
    }

    /// The value that the name `s` stands for, if any.
    pub open spec fn spec_parse(s: Seq<char>) -> Option<Self> {
        if s == "active"@ {
            Some(StudentStatus::Active)
        } else if s == "suspended"@ {
            Some(StudentStatus::Suspended)
        } else if s == "graduated"@ {
            Some(StudentStatus::Graduated)
        } else if s == "left"@ {
            Some(StudentStatus::Left)
        } else {
            None
        }
    }

    /// The name under which this value is stored and exchanged.
    pub fn as_str(&self) -> (r: &'static str)
        ensures
            r@ == self.spec_name(),
    {
        match self {
            StudentStatus::Active => "active",
            StudentStatus::Suspended => "suspended",
            StudentStatus::Graduated => "graduated",
            StudentStatus::Left => "left",
        }
    }

    /// Reads a stored name back into a value.
    pub fn parse(s: &str) -> (r: Option<Self>)
        ensures
            r == Self::spec_parse(s@),
    {
        if str_eq(s, "active") {
            Some(StudentStatus::Active)
        } else if str_eq(s, "suspended") {
            Some(StudentStatus::Suspended)
        } else if str_eq(s, "graduated") {
            Some(StudentStatus::Graduated)
        } else if str_eq(s, "left") {
            Some(StudentStatus::Left)
        } else {
            None
        }
    }

    /// Reading back the name of a value gives that value.
    pub proof fn lemma_parse_name(self)
        ensures
            Self::spec_parse(self.spec_name()) == Some(self),
    {
        reveal_strlit("active");
        reveal_strlit("suspended");
        reveal_strlit("graduated");
        reveal_strlit("left");
        match self {
            StudentStatus::Active => {
            },
            StudentStatus::Suspended => {
                assert("suspended"@.len() != "active"@.len());
            },
            StudentStatus::Graduated => {
                assert("graduated"@.len() != "active"@.len());
                assert("graduated"@[0] != "suspended"@[0]);
            },
            StudentStatus::Left => {
                assert("left"@.len() != "active"@.len());
                assert("left"@.len() != "suspended"@.len());
                assert("left"@.len() != "graduated"@.len());
            },
        }
    }
}

/// Gender of a student, class or room.
#[derive(Clone, Copy, Debug, PartialEq, Eq, Structural)]
pub enum Gender {
    Male,
    Female,
}

impl Gender {
    /// The name under which this value is stored and exchanged.
    pub open spec fn spec_name(self) -> Seq<char> {
        match self {
            Gender::Male => "male"@,
            Gender::Female => "female"@,
        }
    }

    /// The value that the name `s` stands for, if any.
    pub open spec fn spec_parse(s: Seq<char>) -> Option<Self> {
        if s == "male"@ {
            Some(Gender::Male)
        } else if s == "female"@ {
            Some(Gender::Female)
        } else {
            None
        }
    }

    /// The name under which this value is stored and exchanged.
    pub fn as_str(&self) -> (r: &'static str)
        ensures
            r@ == self.spec_name(),
    {
        match self {
            Gender::Male => "male",
            Gender::Female => "female",
        }
    }

    /// Reads a stored name back into a value.
    pub fn parse(s: &str) -> (r: Option<Self>)
        ensures
            r == Self::spec_parse(s@),
    {
        if str_eq(s, "male") {
            Some(Gender::Male)
        } else if str_eq(s, "female") {
            Some(Gender::Female)
        } else {
            None
        }
    }

    /// Reading back the name of a value gives that value.
    pub proof fn lemma_parse_name(self)
        ensures
            Self::spec_parse(self.spec_name()) == Some(self),
    {
        reveal_strlit("male");
        reveal_strlit("female");
        match self {
            Gender::Male => {
            },
            Gender::Female => {
                assert("female"@.len() != "male"@.len());
            },
        }
    }
}

/// Which room genders a building admits.
#[derive(Clone, Copy, Debug, PartialEq, Eq, Structural)]
pub enum BuildingGenderPolicy {
    MaleOnly,
    FemaleOnly,
    Mixed,
}

impl BuildingGenderPolicy {
    /// The name under which this value is stored and exchanged.
    pub open spec fn spec_name(self) -> Seq<char> {
        match self {
            BuildingGenderPolicy::MaleOnly => "male_only"@,
            BuildingGenderPolicy::FemaleOnly => "female_only"@,
            BuildingGenderPolicy::Mixed => "mixed"@,
        }
    }

    /// The value that the name `s` stands for, if any.
    pub open spec fn spec_parse(s: Seq<char>) -> Option<Self> {
        if s == "male_only"@ {
            Some(BuildingGenderPolicy::MaleOnly)
        } else if s == "female_only"@ {
            Some(BuildingGenderPolicy::FemaleOnly)
        } else if s == "mixed"@ {
            Some(BuildingGenderPolicy::Mixed)
        } else {
            None
        }
    }

    /// The name under which this value is stored and exchanged.
    pub fn as_str(&self) -> (r: &'static str)
        ensures
            r@ == self.spec_name(),
    {
        match self {
            BuildingGenderPolicy::MaleOnly => "male_only",
            BuildingGenderPolicy::FemaleOnly => "female_only",
            BuildingGenderPolicy::Mixed => "mixed",
        }
    }

    /// Reads a stored name back into a value.
    pub fn parse(s: &str) -> (r: Option<Self>)
        ensures
            r == Self::spec_parse(s@),
    {
        if str_eq(s, "male_only") {
            Some(BuildingGenderPolicy::MaleOnly)
        } else if str_eq(s, "female_only") {
            Some(BuildingGenderPolicy::FemaleOnly)
        } else if str_eq(s, "mixed") {
            Some(BuildingGenderPolicy::Mixed)
        } else {
            None
        }
    }

    /// Reading back the name of a value gives that value.
    pub proof fn lemma_parse_name(self)
        ensures
            Self::spec_parse(self.spec_name()) == Some(self),
    {
        reveal_strlit("male_only");
        reveal_strlit("female_only");
        reveal_strlit("mixed");
        match self {
            BuildingGenderPolicy::MaleOnly => {
            },
            BuildingGenderPolicy::FemaleOnly => {
                assert("female_only"@.len() != "male_only"@.len());
            },
            BuildingGenderPolicy::Mixed => {
                assert("mixed"@.len() != "male_only"@.len());
                assert("mixed"@.len() != "female_only"@.len());
            },
        }
    }
}

/// Whether a building or room is in use.
#[derive(Clone, Copy, Debug, PartialEq, Eq, Structural)]
pub enum DormRoomStatus {
    Active,
    Disabled,
}

impl DormRoomStatus {
    /// The name under which this value is stored and exchanged.
    pub open spec fn spec_name(self) -> Seq<char> {
        match self {
            DormRoomStatus::Active => "active"@,
            DormRoomStatus::Disabled => "disabled"@,
        }
    }

    /// The value that the name `s` stands for, if any.
    pub open spec fn spec_parse(s: Seq<char>) -> Option<Self> {
        if s == "active"@ {
            Some(DormRoomStatus::Active)
        } else if s == "disabled"@ {
            Some(DormRoomStatus::Disabled)
        } else {
            None
        }
    }

    /// The name under which this value is stored and exchanged.
    pub fn as_str(&self) -> (r: &'static str)
        ensures
            r@ == self.spec_name(),
    {
        match self {
            DormRoomStatus::Active => "active",
            DormRoomStatus::Disabled => "disabled",
        }
    }

    /// Reads a stored name back into a value.
    pub fn parse(s: &str) -> (r: Option<Self>)
        ensures
            r == Self::spec_parse(s@),
    {
        if str_eq(s, "active") {
            Some(DormRoomStatus::Active)
        } else if str_eq(s, "disabled") {
            Some(DormRoomStatus::Disabled)
        } else {
            None
        }
    }

    /// Reading back the name of a value gives that value.
    pub proof fn lemma_parse_name(self)
        ensures
            Self::spec_parse(self.spec_name()) == Some(self),
    {
        reveal_strlit("active");
        reveal_strlit("disabled");
        match self {
            DormRoomStatus::Active => {
            },
            DormRoomStatus::Disabled => {
                assert("disabled"@.len() != "active"@.len());
            },
        }
    }
}

/// Whether a student still lives in the room of an accommodation record.
#[derive(Clone, Copy, Debug, PartialEq, Eq, Structural)]
pub enum AccommodationStatus {
    Active,
    CheckedOut,
}

impl AccommodationStatus {
    /// The name under which this value is stored and exchanged.
    pub open spec fn spec_name(self) -> Seq<char> {
        match self {
            AccommodationStatus::Active => "active"@,
            AccommodationStatus::CheckedOut => "checked_out"@,
        }
    }

    /// The value that the name `s` stands for, if any.
    pub open spec fn spec_parse(s: Seq<char>) -> Option<Self> {
        if s == "active"@ {
            Some(AccommodationStatus::Active)
        } else if s == "checked_out"@ {
            Some(AccommodationStatus::CheckedOut)
        } else {
            None
        }
    }

    /// The name under which this value is stored and exchanged.
    pub fn as_str(&self) -> (r: &'static str)
        ensures
            r@ == self.spec_name(),
    {
        match self {
            AccommodationStatus::Active => "active",
            AccommodationStatus::CheckedOut => "checked_out",
        }
    }

    /// Reads a stored name back into a value.
    pub fn parse(s: &str) -> (r: Option<Self>)
        ensures
            r == Self::spec_parse(s@),
    {
        if str_eq(s, "active") {
            Some(AccommodationStatus::Active)
        } else if str_eq(s, "checked_out") {
            Some(AccommodationStatus::CheckedOut)
        } else {
            None
        }
    }

    /// Reading back the name of a value gives that value.
    pub proof fn lemma_parse_name(self)
        ensures
            Self::spec_parse(self.spec_name()) == Some(self),
    {
        reveal_strlit("active");
        reveal_strlit("checked_out");
        match self {
            AccommodationStatus::Active => {
            },
            AccommodationStatus::CheckedOut => {
                assert("checked_out"@.len() != "active"@.len());
            },
        }
    }
}

/// A management duty that a student can hold.
#[derive(Clone, Copy, Debug, PartialEq, Eq, Structural)]
pub enum StudentDutyType {
    ClassMonitor,
    InspectionExecutor,
    HygieneExecutor,
}

impl StudentDutyType {
    /// The name under which this value is stored and exchanged.
    pub open spec fn spec_name(self) -> Seq<char> {
        match self {
            StudentDutyType::ClassMonitor => "class_monitor"@,
            StudentDutyType::InspectionExecutor => "inspection_executor"@,
            StudentDutyType::HygieneExecutor => "hygiene_executor"@,
        }
    }

    /// The value that the name `s` stands for, if any.
    pub open spec fn spec_parse(s: Seq<char>) -> Option<Self> {
        if s == "class_monitor"@ {
            Some(StudentDutyType::ClassMonitor)
        } else if s == "inspection_executor"@ {
            Some(StudentDutyType::InspectionExecutor)
        } else if s == "hygiene_executor"@ {
            Some(StudentDutyType::HygieneExecutor)
        } else {
            None
        }
    }

    /// The name under which this value is stored and exchanged.
    pub fn as_str(&self) -> (r: &'static str)
        ensures
            r@ == self.spec_name(),
    {
        match self {
            StudentDutyType::ClassMonitor => "class_monitor",
            StudentDutyType::InspectionExecutor => "inspection_executor",
            StudentDutyType::HygieneExecutor => "hygiene_executor",
        }
    }

    /// Reads a stored name back into a value.
    pub fn parse(s: &str) -> (r: Option<Self>)
        ensures
            r == Self::spec_parse(s@),
    {
        if str_eq(s, "class_monitor") {
            Some(StudentDutyType::ClassMonitor)
        } else if str_eq(s, "inspection_executor") {
            Some(StudentDutyType::InspectionExecutor)
        } else if str_eq(s, "hygiene_executor") {
            Some(StudentDutyType::HygieneExecutor)
        } else {
            None
        }
    }

    /// Reading back the name of a value gives that value.
    pub proof fn lemma_parse_name(self)
        ensures
            Self::spec_parse(self.spec_name()) == Some(self),
    {
        reveal_strlit("class_monitor");
        reveal_strlit("inspection_executor");
        reveal_strlit("hygiene_executor");
        match self {
            StudentDutyType::ClassMonitor => {
            },
            StudentDutyType::InspectionExecutor => {
                assert("inspection_executor"@.len() != "class_monitor"@.len());
            },
            StudentDutyType::HygieneExecutor => {
                assert("hygiene_executor"@.len() != "class_monitor"@.len());
                assert("hygiene_executor"@.len() != "inspection_executor"@.len());
            },
        }
    }
}

/// What the scope ids of a student duty name.
#[derive(Clone, Copy, Debug, PartialEq, Eq, Structural)]
pub enum DutyScopeType {
    Room,
    Class,
    Building,
    Task,
}

impl DutyScopeType {
    /// The name under which this value is stored and exchanged.
    pub open spec fn spec_name(self) -> Seq<char> {
        match self {
            DutyScopeType::Room => "room"@,
            DutyScopeType::Class => "class"@,
            DutyScopeType::Building => "building"@,
            DutyScopeType::Task => "task"@,
        }
    }

    /// The value that the name `s` stands for, if any.
    pub open spec fn spec_parse(s: Seq<char>) -> Option<Self> {
        if s == "room"@ {
            Some(DutyScopeType::Room)
        } else if s == "class"@ {
            Some(DutyScopeType::Class)
        } else if s == "building"@ {
            Some(DutyScopeType::Building)
        } else if s == "task"@ {
            Some(DutyScopeType::Task)
        } else {
            None
        }
    }

    /// The name under which this value is stored and exchanged.
    pub fn as_str(&self) -> (r: &'static str)
        ensures
            r@ == self.spec_name(),
    {
        match self {
            DutyScopeType::Room => "room",
            DutyScopeType::Class => "class",
            DutyScopeType::Building => "building",
            DutyScopeType::Task => "task",
        }
    }

    /// Reads a stored name back into a value.
    pub fn parse(s: &str) -> (r: Option<Self>)
        ensures
            r == Self::spec_parse(s@),
    {
        if str_eq(s, "room") {
            Some(DutyScopeType::Room)
        } else if str_eq(s, "class") {
            Some(DutyScopeType::Class)
        } else if str_eq(s, "building") {
            Some(DutyScopeType::Building)
        } else if str_eq(s, "task") {
            Some(DutyScopeType::Task)
        } else {
            None
        }
    }

    /// Reading back the name of a value gives that value.
    pub proof fn lemma_parse_name(self)
        ensures
            Self::spec_parse(self.spec_name()) == Some(self),
    {
        reveal_strlit("room");
        reveal_strlit("class");
        reveal_strlit("building");
        reveal_strlit("task");
        match self {
            DutyScopeType::Room => {
            },
            DutyScopeType::Class => {
                assert("class"@.len() != "room"@.len());
            },
            DutyScopeType::Building => {
                assert("building"@.len() != "room"@.len());
                assert("building"@.len() != "class"@.len());
            },
            DutyScopeType::Task => {
                assert("task"@[0] != "room"@[0]);
                assert("task"@.len() != "class"@.len());
                assert("task"@.len() != "building"@.len());
            },
        }
    }
}

/// Whether a student duty is in force.
#[derive(Clone, Copy, Debug, PartialEq, Eq, Structural)]
pub enum DutyAssignmentStatus {
    Active,
    Disabled,
}

impl DutyAssignmentStatus {
    /// The name under which this value is stored and exchanged.
    pub open spec fn spec_name(self) -> Seq<char> {
        match self {
            DutyAssignmentStatus::Active => "active"@,
            DutyAssignmentStatus::Disabled => "disabled"@,
        }
    }

    /// The value that the name `s` stands for, if any.
    pub open spec fn spec_parse(s: Seq<char>) -> Option<Self> {
        if s == "active"@ {
            Some(DutyAssignmentStatus::Active)
        } else if s == "disabled"@ {
            Some(DutyAssignmentStatus::Disabled)
        } else {
            None
        }
    }

    /// The name under which this value is stored and exchanged.
    pub fn as_str(&self) -> (r: &'static str)
        ensures
            r@ == self.spec_name(),
    {
        match self {
            DutyAssignmentStatus::Active => "active",
            DutyAssignmentStatus::Disabled => "disabled",
        }
    }

    /// Reads a stored name back into a value.
    pub fn parse(s: &str) -> (r: Option<Self>)
        ensures
            r == Self::spec_parse(s@),
    {
        if str_eq(s, "active") {
            Some(DutyAssignmentStatus::Active)
        } else if str_eq(s, "disabled") {
            Some(DutyAssignmentStatus::Disabled)
        } else {
            None
        }
    }

    /// Reading back the name of a value gives that value.
    pub proof fn lemma_parse_name(self)
        ensures
            Self::spec_parse(self.spec_name()) == Some(self),
    {
        reveal_strlit("active");
        reveal_strlit("disabled");
        match self {
            DutyAssignmentStatus::Active => {
            },
            DutyAssignmentStatus::Disabled => {
                assert("disabled"@.len() != "active"@.len());
            },
        }
    }
}

/// The kind of task a task assignment refers to.
#[derive(Clone, Copy, Debug, PartialEq, Eq, Structural)]
pub enum TaskType {
    Inspection,
    Hygiene,
}

impl TaskType {
    /// The name under which this value is stored and exchanged.
    pub open spec fn spec_name(self) -> Seq<char> {
        match self {
            TaskType::Inspection => "inspection"@,
            TaskType::Hygiene => "hygiene"@,
        }
    }

    /// The value that the name `s` stands for, if any.
    pub open spec fn spec_parse(s: Seq<char>) -> Option<Self> {
        if s == "inspection"@ {
            Some(TaskType::Inspection)
        } else if s == "hygiene"@ {
            Some(TaskType::Hygiene)
        } else {
            None
        }
    }

    /// The name under which this value is stored and exchanged.
    pub fn as_str(&self) -> (r: &'static str)
        ensures
            r@ == self.spec_name(),
    {
        match self {
            TaskType::Inspection => "inspection",
            TaskType::Hygiene => "hygiene",
        }
    }

    /// Reads a stored name back into a value.
    pub fn parse(s: &str) -> (r: Option<Self>)
        ensures
            r == Self::spec_parse(s@),
    {
        if str_eq(s, "inspection") {
            Some(TaskType::Inspection)
        } else if str_eq(s, "hygiene") {
            Some(TaskType::Hygiene)
        } else {
            None
        }
    }

    /// Reading back the name of a value gives that value.
    pub proof fn lemma_parse_name(self)
        ensures
            Self::spec_parse(self.spec_name()) == Some(self),
    {
        reveal_strlit("inspection");
        reveal_strlit("hygiene");
        match self {
            TaskType::Inspection => {
            },
            TaskType::Hygiene => {
                assert("hygiene"@.len() != "inspection"@.len());
            },
        }
    }
}

/// Who carries out an assigned task.
#[derive(Clone, Copy, Debug, PartialEq, Eq, Structural)]
pub enum AssigneeType {
    Teacher,
    Student,
}

impl AssigneeType {
    /// The name under which this value is stored and exchanged.
    pub open spec fn spec_name(self) -> Seq<char> {
        match self {
            AssigneeType::Teacher => "teacher"@,
            AssigneeType::Student => "student"@,
        }
    }

    /// The value that the name `s` stands for, if any.
    pub open spec fn spec_parse(s: Seq<char>) -> Option<Self> {
        if s == "teacher"@ {
            Some(AssigneeType::Teacher)
        } else if s == "student"@ {
            Some(AssigneeType::Student)
        } else {
            None
        }
    }

    /// The name under which this value is stored and exchanged.
    pub fn as_str(&self) -> (r: &'static str)
        ensures
            r@ == self.spec_name(),
    {
        match self {
            AssigneeType::Teacher => "teacher",
            AssigneeType::Student => "student",
        }
    }

    /// Reads a stored name back into a value.
    pub fn parse(s: &str) -> (r: Option<Self>)
        ensures
            r == Self::spec_parse(s@),
    {
        if str_eq(s, "teacher") {
            Some(AssigneeType::Teacher)
        } else if str_eq(s, "student") {
            Some(AssigneeType::Student)
        } else {
            None
        }
    }

    /// Reading back the name of a value gives that value.
    pub proof fn lemma_parse_name(self)
        ensures
            Self::spec_parse(self.spec_name()) == Some(self),
    {
        reveal_strlit("teacher");
        reveal_strlit("student");
        match self {
            AssigneeType::Teacher => {
            },
            AssigneeType::Student => {
                assert("student"@[0] != "teacher"@[0]);
            },
        }
    }
}

/// Life cycle of an inspection or hygiene task.
#[derive(Clone, Copy, Debug, PartialEq, Eq, Structural)]
pub enum TaskStatus {
    Draft,
    Published,
    Processing,
    Completed,
    Cancelled,
}

impl TaskStatus {
    /// The name under which this value is stored and exchanged.
    pub open spec fn spec_name(self) -> Seq<char> {
        match self {
            TaskStatus::Draft => "draft"@,
            TaskStatus::Published => "published"@,
            TaskStatus::Processing => "processing"@,
            TaskStatus::Completed => "completed"@,
            TaskStatus::Cancelled => "cancelled"@,
        }
    }

    /// The value that the name `s` stands for, if any.
    pub open spec fn spec_parse(s: Seq<char>) -> Option<Self> {
        if s == "draft"@ {
            Some(TaskStatus::Draft)
        } else if s == "published"@ {
            Some(TaskStatus::Published)
        } else if s == "processing"@ {
            Some(TaskStatus::Processing)
        } else if s == "completed"@ {
            Some(TaskStatus::Completed)
        } else if s == "cancelled"@ {
            Some(TaskStatus::Cancelled)
        } else {
            None
        }
    }

    /// The name under which this value is stored and exchanged.
    pub fn as_str(&self) -> (r: &'static str)
        ensures
            r@ == self.spec_name(),
    {
        match self {
            TaskStatus::Draft => "draft",
            TaskStatus::Published => "published",
            TaskStatus::Processing => "processing",
            TaskStatus::Completed => "completed",
            TaskStatus::Cancelled => "cancelled",
        }
    }

    /// Reads a stored name back into a value.
    pub fn parse(s: &str) -> (r: Option<Self>)
        ensures
            r == Self::spec_parse(s@),
    {
        if str_eq(s, "draft") {
            Some(TaskStatus::Draft)
        } else if str_eq(s, "published") {
            Some(TaskStatus::Published)
        } else if str_eq(s, "processing") {
            Some(TaskStatus::Processing)
        } else if str_eq(s, "completed") {
            Some(TaskStatus::Completed)
        } else if str_eq(s, "cancelled") {
            Some(TaskStatus::Cancelled)
        } else {
            None
        }
    }

    /// Reading back the name of a value gives that value.
    pub proof fn lemma_parse_name(self)
        ensures
            Self::spec_parse(self.spec_name()) == Some(self),
    {
        reveal_strlit("draft");
        reveal_strlit("published");
        reveal_strlit("processing");
        reveal_strlit("completed");
        reveal_strlit("cancelled");
        match self {
            TaskStatus::Draft => {
            },
            TaskStatus::Published => {
                assert("published"@.len() != "draft"@.len());
            },
            TaskStatus::Processing => {
                assert("processing"@.len() != "draft"@.len());
                assert("processing"@.len() != "published"@.len());
            },
            TaskStatus::Completed => {
                assert("completed"@.len() != "draft"@.len());
                assert("completed"@[0] != "published"@[0]);
                assert("completed"@.len() != "processing"@.len());
            },
            TaskStatus::Cancelled => {
                assert("cancelled"@.len() != "draft"@.len());
                assert("cancelled"@[0] != "published"@[0]);
                assert("cancelled"@.len() != "processing"@.len());
                assert("cancelled"@[1] != "completed"@[1]);
            },
        }
    }
}

/// Progress of one assignee on an assigned task.
#[derive(Clone, Copy, Debug, PartialEq, Eq, Structural)]
pub enum TaskAssignmentStatus {
    Assigned,
    Processing,
    Completed,
    Cancelled,
}

impl TaskAssignmentStatus {
    /// The name under which this value is stored and exchanged.
    pub open spec fn spec_name(self) -> Seq<char> {
        match self {
            TaskAssignmentStatus::Assigned => "assigned"@,
            TaskAssignmentStatus::Processing => "processing"@,
            TaskAssignmentStatus::Completed => "completed"@,
            TaskAssignmentStatus::Cancelled => "cancelled"@,
        }
    }

    /// The value that the name `s` stands for, if any.
    pub open spec fn spec_parse(s: Seq<char>) -> Option<Self> {
        if s == "assigned"@ {
            Some(TaskAssignmentStatus::Assigned)
        } else if s == "processing"@ {
            Some(TaskAssignmentStatus::Processing)
        } else if s == "completed"@ {
            Some(TaskAssignmentStatus::Completed)
        } else if s == "cancelled"@ {
            Some(TaskAssignmentStatus::Cancelled)
        } else {
            None
        }
    }

    /// The name under which this value is stored and exchanged.
    pub fn as_str(&self) -> (r: &'static str)
        ensures
            r@ == self.spec_name(),
    {
        match self {
            TaskAssignmentStatus::Assigned => "assigned",
            TaskAssignmentStatus::Processing => "processing",
            TaskAssignmentStatus::Completed => "completed",
            TaskAssignmentStatus::Cancelled => "cancelled",
        }
    }

    /// Reads a stored name back into a value.
    pub fn parse(s: &str) -> (r: Option<Self>)
        ensures
            r == Self::spec_parse(s@),
    {
        if str_eq(s, "assigned") {
            Some(TaskAssignmentStatus::Assigned)
        } else if str_eq(s, "processing") {
            Some(TaskAssignmentStatus::Processing)
        } else if str_eq(s, "completed") {
            Some(TaskAssignmentStatus::Completed)
        } else if str_eq(s, "cancelled") {
            Some(TaskAssignmentStatus::Cancelled)
        } else {
            None
        }
    }

    /// Reading back the name of a value gives that value.
    pub proof fn lemma_parse_name(self)
        ensures
            Self::spec_parse(self.spec_name()) == Some(self),
    {
        reveal_strlit("assigned");
        reveal_strlit("processing");
        reveal_strlit("completed");
        reveal_strlit("cancelled");
        match self {
            TaskAssignmentStatus::Assigned => {
            },
            TaskAssignmentStatus::Processing => {
                assert("processing"@.len() != "assigned"@.len());
            },
            TaskAssignmentStatus::Completed => {
                assert("completed"@.len() != "assigned"@.len());
                assert("completed"@.len() != "processing"@.len());
            },
            TaskAssignmentStatus::Cancelled => {
                assert("cancelled"@.len() != "assigned"@.len());
                assert("cancelled"@.len() != "processing"@.len());
                assert("cancelled"@[1] != "completed"@[1]);
            },
        }
    }
}

/// What the scope ids of an inspection task name.
#[derive(Clone, Copy, Debug, PartialEq, Eq, Structural)]
pub enum ScopeType {
    Building,
    Floor,
    Room,
    Class,
    Student,
}

impl ScopeType {
    /// The name under which this value is stored and exchanged.
    pub open spec fn spec_name(self) -> Seq<char> {
        match self {
            ScopeType::Building => "building"@,
            ScopeType::Floor => "floor"@,
            ScopeType::Room => "room"@,
            ScopeType::Class => "class"@,
            ScopeType::Student => "student"@,
        }
    }

    /// The value that the name `s` stands for, if any.
    pub open spec fn spec_parse(s: Seq<char>) -> Option<Self> {
        if s == "building"@ {
            Some(ScopeType::Building)
        } else if s == "floor"@ {
            Some(ScopeType::Floor)
        } else if s == "room"@ {
            Some(ScopeType::Room)
        } else if s == "class"@ {
            Some(ScopeType::Class)
        } else if s == "student"@ {
            Some(ScopeType::Student)
        } else {
            None
        }
    }

    /// The name under which this value is stored and exchanged.
    pub fn as_str(&self) -> (r: &'static str)
        ensures
            r@ == self.spec_name(),
    {
        match self {
            ScopeType::Building => "building",
            ScopeType::Floor => "floor",
            ScopeType::Room => "room",
            ScopeType::Class => "class",
            ScopeType::Student => "student",
        }
    }

    /// Reads a stored name back into a value.
    pub fn parse(s: &str) -> (r: Option<Self>)
        ensures
            r == Self::spec_parse(s@),
    {
        if str_eq(s, "building") {
            Some(ScopeType::Building)
        } else if str_eq(s, "floor") {
            Some(ScopeType::Floor)
        } else if str_eq(s, "room") {
            Some(ScopeType::Room)
        } else if str_eq(s, "class") {
            Some(ScopeType::Class)
        } else if str_eq(s, "student") {
            Some(ScopeType::Student)
        } else {
            None
        }
    }

    /// Reading back the name of a value gives that value.
    pub proof fn lemma_parse_name(self)
        ensures
            Self::spec_parse(self.spec_name()) == Some(self),
    {
        reveal_strlit("building");
        reveal_strlit("floor");
        reveal_strlit("room");
        reveal_strlit("class");
        reveal_strlit("student");
        match self {
            ScopeType::Building => {
            },
            ScopeType::Floor => {
                assert("floor"@.len() != "building"@.len());
            },
            ScopeType::Room => {
                assert("room"@.len() != "building"@.len());
                assert("room"@.len() != "floor"@.len());
            },
            ScopeType::Class => {
                assert("class"@.len() != "building"@.len());
                assert("class"@[0] != "floor"@[0]);
                assert("class"@.len() != "room"@.len());
            },
            ScopeType::Student => {
                assert("student"@.len() != "building"@.len());
                assert("student"@.len() != "floor"@.len());
                assert("student"@.len() != "room"@.len());
                assert("student"@.len() != "class"@.len());
            },
        }
    }
}

/// How an inspection establishes its results.
#[derive(Clone, Copy, Debug, PartialEq, Eq, Structural)]
pub enum InspectionMethod {
    ManualAbnormal,
    QrCode,
}

impl InspectionMethod {
    /// The name under which this value is stored and exchanged.
    pub open spec fn spec_name(self) -> Seq<char> {
        match self {
            InspectionMethod::ManualAbnormal => "manual_abnormal"@,
            InspectionMethod::QrCode => "qr_code"@,
        }
    }

    /// The value that the name `s` stands for, if any.
    pub open spec fn spec_parse(s: Seq<char>) -> Option<Self> {
        if s == "manual_abnormal"@ {
            Some(InspectionMethod::ManualAbnormal)
        } else if s == "qr_code"@ {
            Some(InspectionMethod::QrCode)
        } else {
            None
        }
    }

    /// The name under which this value is stored and exchanged.
    pub fn as_str(&self) -> (r: &'static str)
        ensures
            r@ == self.spec_name(),
    {
        match self {
            InspectionMethod::ManualAbnormal => "manual_abnormal",
            InspectionMethod::QrCode => "qr_code",
        }
    }

    /// Reads a stored name back into a value.
    pub fn parse(s: &str) -> (r: Option<Self>)
        ensures
            r == Self::spec_parse(s@),
    {
        if str_eq(s, "manual_abnormal") {
            Some(InspectionMethod::ManualAbnormal)
        } else if str_eq(s, "qr_code") {
            Some(InspectionMethod::QrCode)
        } else {
            None
        }
    }

    /// Reading back the name of a value gives that value.
    pub proof fn lemma_parse_name(self)
        ensures
            Self::spec_parse(self.spec_name()) == Some(self),
    {
        reveal_strlit("manual_abnormal");
        reveal_strlit("qr_code");
        match self {
            InspectionMethod::ManualAbnormal => {
            },
            InspectionMethod::QrCode => {
                assert("qr_code"@.len() != "manual_abnormal"@.len());
            },
        }
    }
}

/// Outcome of one student in one inspection.
#[derive(Clone, Copy, Debug, PartialEq, Eq, Structural)]
pub enum InspectionResult {
    Present,
    Abnormal,
    Leave,
    Unknown,
}

impl InspectionResult {
    /// The name under which this value is stored and exchanged.
    pub open spec fn spec_name(self) -> Seq<char> {
        match self {
            InspectionResult::Present => "present"@,
            InspectionResult::Abnormal => "abnormal"@,
            InspectionResult::Leave => "leave"@,
            InspectionResult::Unknown => "unknown"@,
        }
    }

    /// The value that the name `s` stands for, if any.
    pub open spec fn spec_parse(s: Seq<char>) -> Option<Self> {
        if s == "present"@ {
            Some(InspectionResult::Present)
        } else if s == "abnormal"@ {
            Some(InspectionResult::Abnormal)
        } else if s == "leave"@ {
            Some(InspectionResult::Leave)
        } else if s == "unknown"@ {
            Some(InspectionResult::Unknown)
        } else {
            None
        }
    }

    /// The name under which this value is stored and exchanged.
    pub fn as_str(&self) -> (r: &'static str)
        ensures
            r@ == self.spec_name(),
    {
        match self {
            InspectionResult::Present => "present",
            InspectionResult::Abnormal => "abnormal",
            InspectionResult::Leave => "leave",
            InspectionResult::Unknown => "unknown",
        }
    }

    /// Reads a stored name back into a value.
    pub fn parse(s: &str) -> (r: Option<Self>)
        ensures
            r == Self::spec_parse(s@),
    {
        if str_eq(s, "present") {
            Some(InspectionResult::Present)
        } else if str_eq(s, "abnormal") {
            Some(InspectionResult::Abnormal)
        } else if str_eq(s, "leave") {
            Some(InspectionResult::Leave)
        } else if str_eq(s, "unknown") {
            Some(InspectionResult::Unknown)
        } else {
            None
        }
    }

    /// Reading back the name of a value gives that value.
    pub proof fn lemma_parse_name(self)
        ensures
            Self::spec_parse(self.spec_name()) == Some(self),
    {
        reveal_strlit("present");
        reveal_strlit("abnormal");
        reveal_strlit("leave");
        reveal_strlit("unknown");
        match self {
            InspectionResult::Present => {
            },
            InspectionResult::Abnormal => {
                assert("abnormal"@.len() != "present"@.len());
            },
            InspectionResult::Leave => {
                assert("leave"@.len() != "present"@.len());
                assert("leave"@.len() != "abnormal"@.len());
            },
            InspectionResult::Unknown => {
                assert("unknown"@[0] != "present"@[0]);
                assert("unknown"@.len() != "abnormal"@.len());
                assert("unknown"@.len() != "leave"@.len());
            },
        }
    }
}

/// The evidence behind an inspection result.
#[derive(Clone, Copy, Debug, PartialEq, Eq, Structural)]
pub enum InspectionEvidenceSource {
    CheckIn,
    QrCode,
    ManualAbnormal,
    InspectionRoomCompleted,
    OtherVerified,
}

impl InspectionEvidenceSource {
    /// The name under which this value is stored and exchanged.
    pub open spec fn spec_name(self) -> Seq<char> {
        match self {
            InspectionEvidenceSource::CheckIn => "check_in"@,
            InspectionEvidenceSource::QrCode => "qr_code"@,
            InspectionEvidenceSource::ManualAbnormal => "manual_abnormal"@,
            InspectionEvidenceSource::InspectionRoomCompleted => "inspection_room_completed"@,
            InspectionEvidenceSource::OtherVerified => "other_verified"@,
        }
    }

    /// The value that the name `s` stands for, if any.
    pub open spec fn spec_parse(s: Seq<char>) -> Option<Self> {
        if s == "check_in"@ {
            Some(InspectionEvidenceSource::CheckIn)
        } else if s == "qr_code"@ {
            Some(InspectionEvidenceSource::QrCode)
        } else if s == "manual_abnormal"@ {
            Some(InspectionEvidenceSource::ManualAbnormal)
        } else if s == "inspection_room_completed"@ {
            Some(InspectionEvidenceSource::InspectionRoomCompleted)
        } else if s == "other_verified"@ {
            Some(InspectionEvidenceSource::OtherVerified)
        } else {
            None
        }
    }

    /// The name under which this value is stored and exchanged.
    pub fn as_str(&self) -> (r: &'static str)
        ensures
            r@ == self.spec_name(),
    {
        match self {
            InspectionEvidenceSource::CheckIn => "check_in",
            InspectionEvidenceSource::QrCode => "qr_code",
            InspectionEvidenceSource::ManualAbnormal => "manual_abnormal",
            InspectionEvidenceSource::InspectionRoomCompleted => "inspection_room_completed",
            InspectionEvidenceSource::OtherVerified => "other_verified",
        }
    }

    /// Reads a stored name back into a value.
    pub fn parse(s: &str) -> (r: Option<Self>)
        ensures
            r == Self::spec_parse(s@),
    {
        if str_eq(s, "check_in") {
            Some(InspectionEvidenceSource::CheckIn)
        } else if str_eq(s, "qr_code") {
            Some(InspectionEvidenceSource::QrCode)
        } else if str_eq(s, "manual_abnormal") {
            Some(InspectionEvidenceSource::ManualAbnormal)
        } else if str_eq(s, "inspection_room_completed") {
            Some(InspectionEvidenceSource::InspectionRoomCompleted)
        } else if str_eq(s, "other_verified") {
            Some(InspectionEvidenceSource::OtherVerified)
        } else {
            None
        }
    }

    /// Reading back the name of a value gives that value.
    pub proof fn lemma_parse_name(self)
        ensures
            Self::spec_parse(self.spec_name()) == Some(self),
    {
        reveal_strlit("check_in");
        reveal_strlit("qr_code");
        reveal_strlit("manual_abnormal");
        reveal_strlit("inspection_room_completed");
        reveal_strlit("other_verified");
        match self {
            InspectionEvidenceSource::CheckIn => {
            },
            InspectionEvidenceSource::QrCode => {
                assert("qr_code"@.len() != "check_in"@.len());
            },
            InspectionEvidenceSource::ManualAbnormal => {
                assert("manual_abnormal"@.len() != "check_in"@.len());
                assert("manual_abnormal"@.len() != "qr_code"@.len());
            },
            InspectionEvidenceSource::InspectionRoomCompleted => {
                assert("inspection_room_completed"@.len() != "check_in"@.len());
                assert("inspection_room_completed"@.len() != "qr_code"@.len());
                assert("inspection_room_completed"@.len() != "manual_abnormal"@.len());
            },
            InspectionEvidenceSource::OtherVerified => {
                assert("other_verified"@.len() != "check_in"@.len());
                assert("other_verified"@.len() != "qr_code"@.len());
                assert("other_verified"@.len() != "manual_abnormal"@.len());
                assert("other_verified"@.len() != "inspection_room_completed"@.len());
            },
        }
    }
}

/// Life cycle of an inspection QR token.
#[derive(Clone, Copy, Debug, PartialEq, Eq, Structural)]
pub enum InspectionQrTokenStatus {
    Active,
    Used,
    Expired,
    Revoked,
}

impl InspectionQrTokenStatus {
    /// The name under which this value is stored and exchanged.
    pub open spec fn spec_name(self) -> Seq<char> {
        match self {
            InspectionQrTokenStatus::Active => "active"@,
            InspectionQrTokenStatus::Used => "used"@,
            InspectionQrTokenStatus::Expired => "expired"@,
            InspectionQrTokenStatus::Revoked => "revoked"@,
        }
    }

    /// The value that the name `s` stands for, if any.
    pub open spec fn spec_parse(s: Seq<char>) -> Option<Self> {
        if s == "active"@ {
            Some(InspectionQrTokenStatus::Active)
        } else if s == "used"@ {
            Some(InspectionQrTokenStatus::Used)
        } else if s == "expired"@ {
            Some(InspectionQrTokenStatus::Expired)
        } else if s == "revoked"@ {
            Some(InspectionQrTokenStatus::Revoked)
        } else {
            None
        }
    }

    /// The name under which this value is stored and exchanged.
    pub fn as_str(&self) -> (r: &'static str)
        ensures
            r@ == self.spec_name(),
    {
        match self {
            InspectionQrTokenStatus::Active => "active",
            InspectionQrTokenStatus::Used => "used",
            InspectionQrTokenStatus::Expired => "expired",
            InspectionQrTokenStatus::Revoked => "revoked",
        }
    }

    /// Reads a stored name back into a value.
    pub fn parse(s: &str) -> (r: Option<Self>)
        ensures
            r == Self::spec_parse(s@),
    {
        if str_eq(s, "active") {
            Some(InspectionQrTokenStatus::Active)
        } else if str_eq(s, "used") {
            Some(InspectionQrTokenStatus::Used)
        } else if str_eq(s, "expired") {
            Some(InspectionQrTokenStatus::Expired)
        } else if str_eq(s, "revoked") {
            Some(InspectionQrTokenStatus::Revoked)
        } else {
            None
        }
    }

    /// Reading back the name of a value gives that value.
    pub proof fn lemma_parse_name(self)
        ensures
            Self::spec_parse(self.spec_name()) == Some(self),
    {
        reveal_strlit("active");
        reveal_strlit("used");
        reveal_strlit("expired");
        reveal_strlit("revoked");
        match self {
            InspectionQrTokenStatus::Active => {
            },
            InspectionQrTokenStatus::Used => {
                assert("used"@.len() != "active"@.len());
            },
            InspectionQrTokenStatus::Expired => {
                assert("expired"@.len() != "active"@.len());
                assert("expired"@.len() != "used"@.len());
            },
            InspectionQrTokenStatus::Revoked => {
                assert("revoked"@.len() != "active"@.len());
                assert("revoked"@.len() != "used"@.len());
                assert("revoked"@[0] != "expired"@[0]);
            },
        }
    }
}

/// Whether a QR scan was accepted.
#[derive(Clone, Copy, Debug, PartialEq, Eq, Structural)]
pub enum InspectionQrScanResult {
    Accepted,
    Rejected,
}

impl InspectionQrScanResult {
    /// The name under which this value is stored and exchanged.
    pub open spec fn spec_name(self) -> Seq<char> {
        match self {
            InspectionQrScanResult::Accepted => "accepted"@,
            InspectionQrScanResult::Rejected => "rejected"@,
        }
    }

    /// The value that the name `s` stands for, if any.
    pub open spec fn spec_parse(s: Seq<char>) -> Option<Self> {
        if s == "accepted"@ {
            Some(InspectionQrScanResult::Accepted)
        } else if s == "rejected"@ {
            Some(InspectionQrScanResult::Rejected)
        } else {
            None
        }
    }

    /// The name under which this value is stored and exchanged.
    pub fn as_str(&self) -> (r: &'static str)
        ensures
            r@ == self.spec_name(),
    {
        match self {
            InspectionQrScanResult::Accepted => "accepted",
            InspectionQrScanResult::Rejected => "rejected",
        }
    }

    /// Reads a stored name back into a value.
    pub fn parse(s: &str) -> (r: Option<Self>)
        ensures
            r == Self::spec_parse(s@),
    {
        if str_eq(s, "accepted") {
            Some(InspectionQrScanResult::Accepted)
        } else if str_eq(s, "rejected") {
            Some(InspectionQrScanResult::Rejected)
        } else {
            None
        }
    }

    /// Reading back the name of a value gives that value.
    pub proof fn lemma_parse_name(self)
        ensures
            Self::spec_parse(self.spec_name()) == Some(self),
    {
        reveal_strlit("accepted");
        reveal_strlit("rejected");
        match self {
            InspectionQrScanResult::Accepted => {
            },
            InspectionQrScanResult::Rejected => {
                assert("rejected"@[0] != "accepted"@[0]);
            },
        }
    }
}

/// Life cycle of a leave request.
#[derive(Clone, Copy, Debug, PartialEq, Eq, Structural)]
pub enum LeaveStatus {
    Pending,
    Approved,
    Rejected,
    Withdrawn,
    Cancelled,
}

impl LeaveStatus {
    /// The name under which this value is stored and exchanged.
    pub open spec fn spec_name(self) -> Seq<char> {
        match self {
            LeaveStatus::Pending => "pending"@,
            LeaveStatus::Approved => "approved"@,
            LeaveStatus::Rejected => "rejected"@,
            LeaveStatus::Withdrawn => "withdrawn"@,
            LeaveStatus::Cancelled => "cancelled"@,
        }
    }

    /// The value that the name `s` stands for, if any.
    pub open spec fn spec_parse(s: Seq<char>) -> Option<Self> {
        if s == "pending"@ {
            Some(LeaveStatus::Pending)
        } else if s == "approved"@ {
            Some(LeaveStatus::Approved)
        } else if s == "rejected"@ {
            Some(LeaveStatus::Rejected)
        } else if s == "withdrawn"@ {
            Some(LeaveStatus::Withdrawn)
        } else if s == "cancelled"@ {
            Some(LeaveStatus::Cancelled)
        } else {
            None
        }
    }

    /// The name under which this value is stored and exchanged.
    pub fn as_str(&self) -> (r: &'static str)
        ensures
            r@ == self.spec_name(),
    {
        match self {
            LeaveStatus::Pending => "pending",
            LeaveStatus::Approved => "approved",
            LeaveStatus::Rejected => "rejected",
            LeaveStatus::Withdrawn => "withdrawn",
            LeaveStatus::Cancelled => "cancelled",
        }
    }

    /// Reads a stored name back into a value.
    pub fn parse(s: &str) -> (r: Option<Self>)
        ensures
            r == Self::spec_parse(s@),
    {
        if str_eq(s, "pending") {
            Some(LeaveStatus::Pending)
        } else if str_eq(s, "approved") {
            Some(LeaveStatus::Approved)
        } else if str_eq(s, "rejected") {
            Some(LeaveStatus::Rejected)
        } else if str_eq(s, "withdrawn") {
            Some(LeaveStatus::Withdrawn)
        } else if str_eq(s, "cancelled") {
            Some(LeaveStatus::Cancelled)
        } else {
            None
        }
    }

    /// Reading back the name of a value gives that value.
    pub proof fn lemma_parse_name(self)
        ensures
            Self::spec_parse(self.spec_name()) == Some(self),
    {
        reveal_strlit("pending");
        reveal_strlit("approved");
        reveal_strlit("rejected");
        reveal_strlit("withdrawn");
        reveal_strlit("cancelled");
        match self {
            LeaveStatus::Pending => {
            },
            LeaveStatus::Approved => {
                assert("approved"@.len() != "pending"@.len());
            },
            LeaveStatus::Rejected => {
                assert("rejected"@.len() != "pending"@.len());
                assert("rejected"@[0] != "approved"@[0]);
            },
            LeaveStatus::Withdrawn => {
                assert("withdrawn"@.len() != "pending"@.len());
                assert("withdrawn"@.len() != "approved"@.len());
                assert("withdrawn"@.len() != "rejected"@.len());
            },
            LeaveStatus::Cancelled => {
                assert("cancelled"@.len() != "pending"@.len());
                assert("cancelled"@.len() != "approved"@.len());
                assert("cancelled"@.len() != "rejected"@.len());
                assert("cancelled"@[0] != "withdrawn"@[0]);
            },
        }
    }
}

/// The role of a teacher towards a class.
#[derive(Clone, Copy, Debug, PartialEq, Eq, Structural)]
pub enum TeacherClassAssignmentType {
    Counselor,
    Teacher,
    TemporaryManager,
}

impl TeacherClassAssignmentType {
    /// The name under which this value is stored and exchanged.
    pub open spec fn spec_name(self) -> Seq<char> {
        match self {
            TeacherClassAssignmentType::Counselor => "counselor"@,
            TeacherClassAssignmentType::Teacher => "teacher"@,
            TeacherClassAssignmentType::TemporaryManager => "temporary_manager"@,
        }
    }

    /// The value that the name `s` stands for, if any.
    pub open spec fn spec_parse(s: Seq<char>) -> Option<Self> {
        if s == "counselor"@ {
            Some(TeacherClassAssignmentType::Counselor)
        } else if s == "teacher"@ {
            Some(TeacherClassAssignmentType::Teacher)
        } else if s == "temporary_manager"@ {
            Some(TeacherClassAssignmentType::TemporaryManager)
        } else {
            None
        }
    }

    /// The name under which this value is stored and exchanged.
    pub fn as_str(&self) -> (r: &'static str)
        ensures
            r@ == self.spec_name(),
    {
        match self {
            TeacherClassAssignmentType::Counselor => "counselor",
            TeacherClassAssignmentType::Teacher => "teacher",
            TeacherClassAssignmentType::TemporaryManager => "temporary_manager",
        }
    }

    /// Reads a stored name back into a value.
    pub fn parse(s: &str) -> (r: Option<Self>)
        ensures
            r == Self::spec_parse(s@),
    {
        if str_eq(s, "counselor") {
            Some(TeacherClassAssignmentType::Counselor)
        } else if str_eq(s, "teacher") {
            Some(TeacherClassAssignmentType::Teacher)
        } else if str_eq(s, "temporary_manager") {
            Some(TeacherClassAssignmentType::TemporaryManager)
        } else {
            None
        }
    }

    /// Reading back the name of a value gives that value.
    pub proof fn lemma_parse_name(self)
        ensures
            Self::spec_parse(self.spec_name()) == Some(self),
    {
        reveal_strlit("counselor");
        reveal_strlit("teacher");
        reveal_strlit("temporary_manager");
        match self {
            TeacherClassAssignmentType::Counselor => {
            },
            TeacherClassAssignmentType::Teacher => {
                assert("teacher"@.len() != "counselor"@.len());
            },
            TeacherClassAssignmentType::TemporaryManager => {
                assert("temporary_manager"@.len() != "counselor"@.len());
                assert("temporary_manager"@.len() != "teacher"@.len());
            },
        }
    }
}

/// Whether a teacher's class assignment is in force.
#[derive(Clone, Copy, Debug, PartialEq, Eq, Structural)]
pub enum TeacherClassAssignmentStatus {
    Active,
    Disabled,
}

impl TeacherClassAssignmentStatus {
    /// The name under which this value is stored and exchanged.
    pub open spec fn spec_name(self) -> Seq<char> {
        match self {
            TeacherClassAssignmentStatus::Active => "active"@,
            TeacherClassAssignmentStatus::Disabled => "disabled"@,
        }
    }

    /// The value that the name `s` stands for, if any.
    pub open spec fn spec_parse(s: Seq<char>) -> Option<Self> {
        if s == "active"@ {
            Some(TeacherClassAssignmentStatus::Active)
        } else if s == "disabled"@ {
            Some(TeacherClassAssignmentStatus::Disabled)
        } else {
            None
        }
    }

    /// The name under which this value is stored and exchanged.
    pub fn as_str(&self) -> (r: &'static str)
        ensures
            r@ == self.spec_name(),
    {
        match self {
            TeacherClassAssignmentStatus::Active => "active",
            TeacherClassAssignmentStatus::Disabled => "disabled",
        }
    }

    /// Reads a stored name back into a value.
    pub fn parse(s: &str) -> (r: Option<Self>)
        ensures
            r == Self::spec_parse(s@),
    {
        if str_eq(s, "active") {
            Some(TeacherClassAssignmentStatus::Active)
        } else if str_eq(s, "disabled") {
            Some(TeacherClassAssignmentStatus::Disabled)
        } else {
            None
        }
    }

    /// Reading back the name of a value gives that value.
    pub proof fn lemma_parse_name(self)
        ensures
            Self::spec_parse(self.spec_name()) == Some(self),
    {
        reveal_strlit("active");
        reveal_strlit("disabled");
        match self {
            TeacherClassAssignmentStatus::Active => {
            },
            TeacherClassAssignmentStatus::Disabled => {
                assert("disabled"@.len() != "active"@.len());
            },
        }
    }
}

} // verus!
