//! Student duties and task assignments: which duty scopes are valid, and
//! which executor duty backs a task assigned to a student.
use crate::error::{error_is, ApiError, ApiErrorKind};
use crate::model::{AssigneeType, DutyAssignmentStatus, DutyScopeType, StudentDutyType, TaskType};
use vstd::prelude::*;

verus! {

/// A request to give a student a duty.
#[derive(Clone, Debug)]
pub struct StudentDutyAssignmentCreate {
    pub student_id: String,
    pub duty_type: StudentDutyType,
    pub scope_type: DutyScopeType,
    pub scope_ids: Vec<String>,
}

/// A request to change the scope or status of a student duty.
#[derive(Clone, Debug)]
pub struct StudentDutyAssignmentUpdate {
    pub scope_ids: Option<Vec<String>>,
    pub status: Option<DutyAssignmentStatus>,
}

/// A request to assign a task to a teacher or a student.
#[derive(Clone, Debug)]
pub struct TaskAssignmentCreate {
    pub task_type: TaskType,
    pub task_id: String,
    pub assignee_id: String,
    pub assignee_type: AssigneeType,
    pub duty_assignment_id: Option<String>,
}

/// What remains to be done to find the duty that backs a task assignment.
#[derive(Clone, Debug)]
pub enum TaskDutyPlan {
    /// Nothing to look up: a teacher's assignment records no duty.
    NoDuty,
    /// The named duty must be read and be an active duty of the required type.
    CheckGiven { duty_assignment_id: String, required_duty: StudentDutyType },
    /// The first active duty of the required type that the student holds must be found.
    FindActive { required_duty: StudentDutyType },
}

/// Checks a new duty: at least one scope id, and a class scope for a class
/// monitor.
pub fn validate_student_duty(payload: &StudentDutyAssignmentCreate) -> (r: Result<(), ApiError>)
    ensures
        match r {
            Ok(()) => payload.scope_ids@.len() > 0 && (payload.duty_type
                == StudentDutyType::ClassMonitor ==> payload.scope_type == DutyScopeType::Class),
            Err(e) => if payload.scope_ids@.len() == 0 {
                error_is(e, ApiErrorKind::BadRequest, "scope_ids must not be empty"@)
            } else {
                payload.duty_type == StudentDutyType::ClassMonitor && payload.scope_type
                    != DutyScopeType::Class && error_is(
                    e,
                    ApiErrorKind::BadRequest,
                    "class monitor duty must use class scope"@,
                )
            },
        },
{
    if payload.scope_ids.len() == 0 {
        return Err(ApiError::bad_request("scope_ids must not be empty"));
    }
    if payload.duty_type == StudentDutyType::ClassMonitor && payload.scope_type
        != DutyScopeType::Class {
        return Err(ApiError::bad_request("class monitor duty must use class scope"));
    }
    Ok(())
}

/// Checks a duty update: new scope ids, when given, are not empty.
pub fn validate_duty_update(payload: &StudentDutyAssignmentUpdate) -> (r: Result<(), ApiError>)
    ensures
        match r {
            Ok(()) => !(payload.scope_ids matches Some(ids) && ids@.len() == 0),
            Err(e) => (payload.scope_ids matches Some(ids) && ids@.len() == 0) && error_is(
                e,
                ApiErrorKind::BadRequest,
                "scope_ids must not be empty"@,
            ),
        },
{
    match &payload.scope_ids {
        Some(ids) => if ids.len() == 0 {
            Err(ApiError::bad_request("scope_ids must not be empty"))
        } else {
            Ok(())
        },
        None => Ok(()),
    }
}

/// The executor duty a student needs to carry out a task of type `task_type`.
pub open spec fn spec_required_duty(task_type: TaskType) -> StudentDutyType {
    match task_type {
        TaskType::Inspection => StudentDutyType::InspectionExecutor,
        TaskType::Hygiene => StudentDutyType::HygieneExecutor,
    }
}

/// The executor duty a student needs to carry out a task of type `task_type`.
pub fn required_executor_duty(task_type: TaskType) -> (r: StudentDutyType)
    ensures
        r == spec_required_duty(task_type),
{
    match task_type {
        TaskType::Inspection => StudentDutyType::InspectionExecutor,
        TaskType::Hygiene => StudentDutyType::HygieneExecutor,
    }
}

/// The first step of finding the duty behind an assignment: a teacher
/// executes without a student duty, so a teacher's assignment records none
/// (whatever the request names); a student's names the
/// executor duty the task type requires, either to check the given duty or
/// to find one.
pub fn plan_task_duty(payload: &TaskAssignmentCreate) -> (r: TaskDutyPlan)
    ensures
        payload.assignee_type == AssigneeType::Teacher ==> r matches TaskDutyPlan::NoDuty,
        payload.assignee_type == AssigneeType::Student ==> match payload.duty_assignment_id {
            Some(given) => r matches TaskDutyPlan::CheckGiven { duty_assignment_id, required_duty }
                && duty_assignment_id == given && required_duty == spec_required_duty(
                payload.task_type,
            ),
            None => r matches TaskDutyPlan::FindActive { required_duty } && required_duty
                == spec_required_duty(payload.task_type),
        },
{
    if payload.assignee_type == AssigneeType::Teacher {
        return TaskDutyPlan::NoDuty;
    }
    let required_duty = required_executor_duty(payload.task_type);
    match &payload.duty_assignment_id {
        Some(given) => TaskDutyPlan::CheckGiven {
            duty_assignment_id: given.clone(),
            required_duty,
        },
        None => TaskDutyPlan::FindActive { required_duty },
    }
}

/// Accepts the duty named in a student's assignment when it is an active
/// duty of the required type.
pub fn check_given_duty(
    duty_assignment_id: String,
    required_duty: StudentDutyType,
    found_type: StudentDutyType,
    found_status: DutyAssignmentStatus,
) -> (r: Result<Option<String>, ApiError>)
    ensures
        match r {
            Ok(id) => found_type == required_duty && found_status == DutyAssignmentStatus::Active
                && (id matches Some(i) && i == duty_assignment_id),
            Err(e) => !(found_type == required_duty && found_status
                == DutyAssignmentStatus::Active) && error_is(
                e,
                ApiErrorKind::BadRequest,
                "student task assignee must have an active matching executor duty"@,
            ),
        },
{
    if found_type != required_duty || found_status != DutyAssignmentStatus::Active {
        return Err(
            ApiError::bad_request("student task assignee must have an active matching executor duty"),
        );
    }
    Ok(Some(duty_assignment_id))
}

/// The outcome of searching a student's active duty of the required type.
pub fn finish_duty_search(found: Option<String>) -> (r: Result<Option<String>, ApiError>)
    ensures
        match found {
            Some(id) => r matches Ok(Some(i)) && i == id,
            None => r matches Err(e) && error_is(
                e,
                ApiErrorKind::BadRequest,
                "student task assignee must have an active executor duty"@,
            ),
        },
{
    match found {
        Some(id) => Ok(Some(id)),
        None => Err(ApiError::bad_request("student task assignee must have an active executor duty")),
    }
}

/// A class monitor duty never qualifies a student to execute a task.
pub proof fn lemma_class_monitor_never_executes(task_type: TaskType)
    ensures
        spec_required_duty(task_type) != StudentDutyType::ClassMonitor,
{
}

} // verus!
