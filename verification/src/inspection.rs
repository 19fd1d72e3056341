//! Dormitory inspection: task checks, the SQL that selects the students a
//! task covers, QR tokens (issuing, hashing, checking a scan), executor
//! access to rooms and the approved leave that turns a record into `leave`.
use crate::crypto::{os_random_32, sha256_digest, sha256_spec};
use crate::digits::{decimal_seq, format_u64, hex_encode, hex_seq, is_lower_hex_char, lemma_hex_shape};
use crate::error::{error_is, ApiError, ApiErrorKind};
use crate::model::{
    DutyAssignmentStatus, DutyScopeType, InspectionMethod, InspectionQrTokenStatus,
    InspectionResult, LeaveStatus,
    ScopeType, StudentDutyType, TaskStatus, TaskType,
};
use crate::text::{concat2, concat3, is_blank_seq, str_eq};
use crate::validation::{empty_field_error, validate_non_empty};
use vstd::prelude::*;

verus! {

/// How long an issued QR token stays valid, in minutes.
pub const QR_TOKEN_TTL_MINUTES: i64 = 5;

/// The interval length of a QR token's validity, as the text bound into SQL.
pub fn qr_token_ttl_text() -> (r: String)
    ensures
        r@ == decimal_seq(QR_TOKEN_TTL_MINUTES as nat),
{
    format_u64(QR_TOKEN_TTL_MINUTES as u64)
}


/// A request to create an inspection task.
#[derive(Clone, Debug)]
pub struct DormInspectionTaskCreate {
    pub title: String,
    pub scope_type: ScopeType,
    pub scope_ids: Vec<String>,
    pub scheduled_at: String,
    pub method: InspectionMethod,
}

/// A duty a student holds, with the ids its scope names.
#[derive(Clone, Debug)]
pub struct StudentDutyAssignment {
    pub id: String,
    pub student_id: String,
    pub duty_type: StudentDutyType,
    pub scope_type: DutyScopeType,
    pub scope_ids: Vec<String>,
    pub assigned_by: Option<String>,
    pub status: DutyAssignmentStatus,
}

/// A room and where it belongs; `class_id` and `building_id` are None when
/// no room with this id exists.
#[derive(Clone, Debug)]
pub struct RoomPlacement {
    pub room_id: String,
    pub class_id: Option<String>,
    pub building_id: Option<String>,
}

/// A leave request of a student, its instants in microseconds since the Unix
/// epoch.
#[derive(Clone, Debug)]
pub struct LeaveWindow {
    pub id: String,
    pub status: LeaveStatus,
    pub starts_at: i64,
    pub ends_at: i64,
    pub submitted_at: i64,
}

// ---------------------------------------------------------------------------
// Tasks

/// Checks a task creation request: a title that is not blank, at least one
/// scope id, and a supported method.
pub fn validate_task_create(payload: &DormInspectionTaskCreate) -> (r: Result<(), ApiError>)
    ensures
        match r {
            Ok(()) => !is_blank_seq(payload.title@) && payload.scope_ids@.len() > 0,
            Err(e) => if is_blank_seq(payload.title@) {
                empty_field_error(e, "title"@)
            } else {
                payload.scope_ids@.len() == 0 && error_is(
                    e,
                    ApiErrorKind::BadRequest,
                    "scope_ids must not be empty"@,
                )
            },
        },
{
    match validate_non_empty(payload.title.as_str(), "title") {
        Ok(()) => {},
        Err(e) => return Err(e),
    }
    if payload.scope_ids.len() == 0 {
        return Err(ApiError::bad_request("scope_ids must not be empty"));
    }
    if !(payload.method == InspectionMethod::QrCode || payload.method
        == InspectionMethod::ManualAbnormal) {
        return Err(ApiError::bad_request("unsupported inspection method"));
    }
    Ok(())
}

/// A task may be published unless it is completed or cancelled or scoped by
/// floor (there is no floor entity).
pub fn check_publishable(status: TaskStatus, scope_type: ScopeType) -> (r: Result<(), ApiError>)
    ensures
        match r {
            Ok(()) => status != TaskStatus::Completed && status != TaskStatus::Cancelled
                && scope_type != ScopeType::Floor,
            Err(e) => if status == TaskStatus::Completed || status == TaskStatus::Cancelled {
                error_is(
                    e,
                    ApiErrorKind::BadRequest,
                    "completed or cancelled task cannot be published"@,
                )
            } else {
                scope_type == ScopeType::Floor && error_is(
                    e,
                    ApiErrorKind::BadRequest,
                    "floor scope is not implemented in P3 because there is no floor entity"@,
                )
            },
        },
{
    if status == TaskStatus::Completed || status == TaskStatus::Cancelled {
        return Err(ApiError::bad_request("completed or cancelled task cannot be published"));
    }
    if scope_type == ScopeType::Floor {
        return Err(
            ApiError::bad_request(
                "floor scope is not implemented in P3 because there is no floor entity",
            ),
        );
    }
    Ok(())
}

/// A task may be completed only when none of its records is still unknown.
pub fn check_completable(unknown_count: i64) -> (r: Result<(), ApiError>)
    ensures
        match r {
            Ok(()) => unknown_count <= 0,
            Err(e) => unknown_count > 0 && error_is(
                e,
                ApiErrorKind::BadRequest,
                "inspection task still has unknown records"@,
            ),
        },
{
    if unknown_count > 0 {
        return Err(ApiError::bad_request("inspection task still has unknown records"));
    }
    Ok(())
}

// ---------------------------------------------------------------------------
// SQL text

/// The columns and table of an inspection record query, before its tail.
pub const RECORD_SELECT_HEAD: &'static str = "\n        SELECT id::text AS id, task_id::text AS task_id, student_id::text AS student_id,\n            room_id::text AS room_id, result, abnormal_reason, evidence_source,\n            evidence_ref_id::text AS evidence_ref_id, leave_request_id::text AS leave_request_id,\n            checked_by::text AS checked_by, checked_at::text AS checked_at\n        FROM dorm_inspection_records\n        ";

/// What follows the tail of an inspection record query.
pub const SQL_TAIL_END: &'static str = "\n        ";

/// Students with an active accommodation in a room of one of the buildings.
pub const BUILDING_SCOPE_SQL: &'static str = "\n                SELECT a.student_id, a.room_id\n                FROM accommodations a\n                INNER JOIN rooms r ON r.id = a.room_id\n                WHERE a.status = 'active' AND r.building_id = ANY(ARRAY(SELECT unnest($2::text[])::uuid))\n                ";

/// Students with an active accommodation in one of the rooms.
pub const ROOM_SCOPE_SQL: &'static str = "\n                SELECT a.student_id, a.room_id\n                FROM accommodations a\n                WHERE a.status = 'active' AND a.room_id = ANY(ARRAY(SELECT unnest($2::text[])::uuid))\n                ";

/// Students of one of the classes with an active accommodation.
pub const CLASS_SCOPE_SQL: &'static str = "\n                SELECT a.student_id, a.room_id\n                FROM accommodations a\n                INNER JOIN students s ON s.id = a.student_id\n                WHERE a.status = 'active' AND s.class_id = ANY(ARRAY(SELECT unnest($2::text[])::uuid))\n                ";

/// The listed students, when they have an active accommodation.
pub const STUDENT_SCOPE_SQL: &'static str = "\n                SELECT a.student_id, a.room_id\n                FROM accommodations a\n                WHERE a.status = 'active' AND a.student_id = ANY(ARRAY(SELECT unnest($2::text[])::uuid))\n                ";

/// The start of the statement that inserts `unknown` records for a scope.
pub const INSERT_RECORDS_HEAD: &'static str = "\n        INSERT INTO dorm_inspection_records (task_id, student_id, room_id)\n        SELECT $1::uuid, scoped.student_id, scoped.room_id\n        FROM (";

/// The end of the statement that inserts `unknown` records for a scope.
pub const INSERT_RECORDS_TAIL: &'static str = ") scoped\n        ON CONFLICT (task_id, student_id) DO NOTHING\n        ";

/// The inspection record query with `tail` (conditions, order, limits) appended.
pub fn record_select_sql(tail: &str) -> (r: String)
    ensures
        r@ == RECORD_SELECT_HEAD@ + tail@ + SQL_TAIL_END@,
{
    concat3(RECORD_SELECT_HEAD, tail, SQL_TAIL_END)
}

/// The query that selects the students (and their rooms) a task of scope
/// `scope_type` covers; floor scopes are refused.
pub fn scoped_select_sql(scope_type: ScopeType) -> (r: Result<&'static str, ApiError>)
    ensures
        match scope_type {
            ScopeType::Building => r matches Ok(q) && q@ == BUILDING_SCOPE_SQL@,
            ScopeType::Room => r matches Ok(q) && q@ == ROOM_SCOPE_SQL@,
            ScopeType::Class => r matches Ok(q) && q@ == CLASS_SCOPE_SQL@,
            ScopeType::Student => r matches Ok(q) && q@ == STUDENT_SCOPE_SQL@,
            ScopeType::Floor => r matches Err(e) && error_is(
                e,
                ApiErrorKind::BadRequest,
                "floor scope is not implemented in P3"@,
            ),
        },
{
    match scope_type {
        ScopeType::Building => Ok(BUILDING_SCOPE_SQL),
        ScopeType::Room => Ok(ROOM_SCOPE_SQL),
        ScopeType::Class => Ok(CLASS_SCOPE_SQL),
        ScopeType::Student => Ok(STUDENT_SCOPE_SQL),
        ScopeType::Floor => Err(ApiError::bad_request("floor scope is not implemented in P3")),
    }
}

/// The statement that inserts an `unknown` record for every student that
/// `scoped_select` yields, skipping students that already have one.
pub fn insert_records_sql(scoped_select: &str) -> (r: String)
    ensures
        r@ == INSERT_RECORDS_HEAD@ + scoped_select@ + INSERT_RECORDS_TAIL@,
{
    concat3(INSERT_RECORDS_HEAD, scoped_select, INSERT_RECORDS_TAIL)
}

// ---------------------------------------------------------------------------
// QR tokens

/// The stored hash of a QR token: SHA-256 of its UTF-8 bytes in lower-case hex.
pub open spec fn qr_hash_spec(token: Seq<char>) -> Seq<char> {
    hex_seq(sha256_spec(vstd::utf8::encode_utf8(token)))
}

/// The hash stored for a QR token in place of the token itself.
pub fn hash_qr_token(token: &str) -> (r: String)
    ensures
        r@ == qr_hash_spec(token@),
        r@.len() == 64,
{
    let digest = sha256_digest(token.as_bytes());
    proof {
        lemma_hex_shape(digest@);
    }
    hex_encode(digest.as_slice())
}

/// Whether `token` is the token that `token_hash` was stored for.
pub fn verify_qr_token(token: &str, token_hash: &str) -> (r: bool)
    ensures
        r == (qr_hash_spec(token@) == token_hash@),
{
    let hash = hash_qr_token(token);
    str_eq(hash.as_str(), token_hash)
}

/// A fresh QR token: 32 bytes from the operating system's random source in
/// lower-case hex. Which bytes is left open.
pub fn generate_plain_token() -> (r: Result<String, ApiError>)
    ensures
        match r {
            Ok(token) => {
                &&& token@.len() == 64
                &&& forall|i: int| 0 <= i < 64 ==> is_lower_hex_char(#[trigger] token@[i])
                &&& exists|bytes: Seq<u8>| bytes.len() == 32 && token@ == hex_seq(bytes)
            },
            Err(e) => e.kind == ApiErrorKind::Internal && exists|reason: Seq<char>|
                e.message@ == "random source error: "@ + reason,
        },
{
    match os_random_32() {
        Ok(bytes) => {
            proof {
                lemma_hex_shape(bytes@);
            }
            let token = hex_encode(bytes.as_slice());
            assert(token@ == hex_seq(bytes@));
            Ok(token)
        },
        Err(reason) => {
            let message = concat2("random source error: ", reason.as_str());
            Err(ApiError::internal(message.as_str()))
        },
    }
}

/// A token whose expiry instant has been reached is expired.
pub fn token_is_expired(now_epoch_seconds: i64, expires_epoch_seconds: i64) -> (expired: bool)
    ensures
        expired == (now_epoch_seconds >= expires_epoch_seconds),
{
    now_epoch_seconds >= expires_epoch_seconds
}

/// The task states in which records can be checked and tokens issued.
pub open spec fn task_is_executable(status: TaskStatus) -> bool {
    status == TaskStatus::Published || status == TaskStatus::Processing
}

/// `e` is the refusal to issue a QR token for a record with result
/// `result`, of a task in state `task_status`, in room `room_id`, of a
/// student whose active accommodation is `accommodation_room_id`: the first
/// of the issuing conditions that fails, with its message.
pub open spec fn qr_issue_refusal(
    e: ApiError,
    result: InspectionResult,
    task_status: TaskStatus,
    room_id: Seq<char>,
    accommodation_room_id: Option<String>,
) -> bool {
    if result != InspectionResult::Unknown {
        error_is(e, ApiErrorKind::BadRequest, "only unknown inspection records can issue QR tokens"@)
    } else if !task_is_executable(task_status) {
        error_is(
            e,
            ApiErrorKind::BadRequest,
            "inspection task is not available for QR token issuing"@,
        )
    } else if accommodation_room_id is None {
        error_is(e, ApiErrorKind::BadRequest, "student has no active accommodation"@)
    } else {
        accommodation_room_id->0@ != room_id && error_is(
            e,
            ApiErrorKind::BadRequest,
            "active accommodation room does not match inspection record"@,
        )
    }
}

/// A student may get a QR token for a record that is still unknown, of a
/// task that is published or processing, while living (active
/// accommodation) in the record's room.
pub fn check_qr_issuable(
    result: InspectionResult,
    task_status: TaskStatus,
    room_id: &str,
    accommodation_room_id: &Option<String>,
) -> (r: Result<(), ApiError>)
    ensures
        match r {
            Ok(()) => result == InspectionResult::Unknown && task_is_executable(task_status)
                && (accommodation_room_id matches Some(a) && a@ == room_id@),
            Err(e) => qr_issue_refusal(e, result, task_status, room_id@, *accommodation_room_id),
        },
        result == InspectionResult::Unknown && task_status != TaskStatus::Published && task_status
            != TaskStatus::Processing ==> (r matches Err(e) && error_is(
            e,
            ApiErrorKind::BadRequest,
            "inspection task is not available for QR token issuing"@,
        )),
{
    if result != InspectionResult::Unknown {
        return Err(ApiError::bad_request("only unknown inspection records can issue QR tokens"));
    }
    if task_status != TaskStatus::Published && task_status != TaskStatus::Processing {
        return Err(
            ApiError::bad_request("inspection task is not available for QR token issuing"),
        );
    }
    match accommodation_room_id {
        None => Err(ApiError::bad_request("student has no active accommodation")),
        Some(a) => if str_eq(a.as_str(), room_id) {
            Ok(())
        } else {
            Err(ApiError::bad_request("active accommodation room does not match inspection record"))
        },
    }
}

/// The refusal to issue a token for a record that an approved leave covers.
pub fn covered_by_leave_error(leave_request_id: &Option<String>) -> (e: ApiError)
    ensures
        error_is(
            e,
            ApiErrorKind::BadRequest,
            "inspection record is covered by approved leave: "@ + match leave_request_id {
                Some(id) => id@,
                None => Seq::<char>::empty(),
            },
        ),
{
    let id = match leave_request_id {
        Some(id) => id.as_str(),
        None => "",
    };
    proof {
        reveal_strlit("");
    }
    let message = concat2("inspection record is covered by approved leave: ", id);
    ApiError::bad_request(message.as_str())
}

/// The refusal of a scan whose token is unknown.
pub fn missing_qr_token_error() -> (e: ApiError)
    ensures
        error_is(e, ApiErrorKind::BadRequest, "QR token does not exist"@),
{
    ApiError::bad_request("QR token does not exist")
}

/// A scanned token must be active and not yet expired.
pub fn check_token_usable(status: &str, expired: bool) -> (r: Result<(), ApiError>)
    ensures
        match r {
            Ok(()) => status@ == "active"@ && !expired,
            Err(e) => if status@ != "active"@ {
                error_is(e, ApiErrorKind::BadRequest, "QR token is not active"@)
            } else {
                expired && error_is(e, ApiErrorKind::BadRequest, "QR token is expired"@)
            },
        },
{
    if !str_eq(status, "active") {
        return Err(ApiError::bad_request("QR token is not active"));
    }
    if expired {
        return Err(ApiError::bad_request("QR token is expired"));
    }
    Ok(())
}

/// A scan may confirm a record of an executable task that is still unknown,
/// of a student whose active accommodation is the token's room.
pub fn check_scan_target(
    task_status: TaskStatus,
    record_result: InspectionResult,
    active_room_id: &Option<String>,
    qr_room_id: &str,
) -> (r: Result<(), ApiError>)
    ensures
        match r {
            Ok(()) => task_is_executable(task_status) && record_result == InspectionResult::Unknown
                && (active_room_id matches Some(a) && a@ == qr_room_id@),
            Err(e) => if !task_is_executable(task_status) {
                error_is(e, ApiErrorKind::BadRequest, "inspection task is not executable"@)
            } else if record_result != InspectionResult::Unknown {
                error_is(e, ApiErrorKind::BadRequest, "inspection record is no longer unknown"@)
            } else {
                !(active_room_id matches Some(a) && a@ == qr_room_id@) && error_is(
                    e,
                    ApiErrorKind::BadRequest,
                    "student active accommodation does not match QR room"@,
                )
            },
        },
        task_status != TaskStatus::Published && task_status != TaskStatus::Processing ==> (
        r matches Err(e) && error_is(e, ApiErrorKind::BadRequest, "inspection task is not executable"@)),
{
    if task_status != TaskStatus::Published && task_status != TaskStatus::Processing {
        return Err(ApiError::bad_request("inspection task is not executable"));
    }
    if record_result != InspectionResult::Unknown {
        return Err(ApiError::bad_request("inspection record is no longer unknown"));
    }
    let matches = match active_room_id {
        Some(a) => str_eq(a.as_str(), qr_room_id),
        None => false,
    };
    if !matches {
        return Err(ApiError::bad_request("student active accommodation does not match QR room"));
    }
    Ok(())
}

// ---------------------------------------------------------------------------
// Executors

/// An inspection executor duty is what lets a student carry out an
/// inspection task.
pub fn inspection_duty_matches_task(duty_type: StudentDutyType, task_type: TaskType) -> (r: bool)
    ensures
        r == (duty_type == StudentDutyType::InspectionExecutor && task_type == TaskType::Inspection),
{
    duty_type == StudentDutyType::InspectionExecutor && task_type == TaskType::Inspection
}

/// `d` is an inspection executor duty in force.
pub open spec fn is_active_inspection_duty(d: StudentDutyAssignment) -> bool {
    d.duty_type == StudentDutyType::InspectionExecutor && d.status == DutyAssignmentStatus::Active
}

/// One of `ids` is `id`.
pub open spec fn ids_contain(ids: Seq<String>, id: Seq<char>) -> bool {
    exists|i: int| 0 <= i < ids.len() && (#[trigger] ids[i])@ == id
}

/// The scope of duty `d` takes in `room`: the room itself, its class, its
/// building, or (for a task scope) any room.
pub open spec fn duty_scope_covers_room(d: StudentDutyAssignment, room: RoomPlacement) -> bool {
    match d.scope_type {
        DutyScopeType::Room => ids_contain(d.scope_ids@, room.room_id@),
        DutyScopeType::Class => room.class_id matches Some(c) && ids_contain(d.scope_ids@, c@),
        DutyScopeType::Building => room.building_id matches Some(b) && ids_contain(
            d.scope_ids@,
            b@,
        ),
        DutyScopeType::Task => true,
    }
}

/// Some duty in `duties` is an active inspection executor duty whose scope
/// takes in `room`.
pub open spec fn spec_can_access_room(duties: Seq<StudentDutyAssignment>, room: RoomPlacement) -> bool {
    exists|i: int|
        0 <= i < duties.len() && is_active_inspection_duty(#[trigger] duties[i])
            && duty_scope_covers_room(duties[i], room)
}

/// Some duty in `duties` is an active inspection executor duty.
pub open spec fn spec_is_executor(duties: Seq<StudentDutyAssignment>) -> bool {
    exists|i: int| 0 <= i < duties.len() && is_active_inspection_duty(#[trigger] duties[i])
}

/// Whether `id` is one of `ids`.
pub fn contains_id(ids: &Vec<String>, id: &str) -> (r: bool)
    ensures
        r == ids_contain(ids@, id@),
{
    let mut i: usize = 0;
    while i < ids.len()
        invariant
            i <= ids@.len(),
            forall|j: int| 0 <= j < i ==> (#[trigger] ids@[j])@ != id@,
        decreases ids.len() - i,
    {
        if str_eq(ids[i].as_str(), id) {
            return true;
        }
        i = i + 1;
    }
    false
}

fn duty_covers_room(d: &StudentDutyAssignment, room: &RoomPlacement) -> (r: bool)
    ensures
        r == duty_scope_covers_room(*d, *room),
{
    match d.scope_type {
        DutyScopeType::Room => contains_id(&d.scope_ids, room.room_id.as_str()),
        DutyScopeType::Class => match &room.class_id {
            Some(c) => contains_id(&d.scope_ids, c.as_str()),
            None => false,
        },
        DutyScopeType::Building => match &room.building_id {
            Some(b) => contains_id(&d.scope_ids, b.as_str()),
            None => false,
        },
        DutyScopeType::Task => true,
    }
}

/// Whether the student holding `duties` is an inspection executor.
pub fn is_inspection_executor(duties: &Vec<StudentDutyAssignment>) -> (r: bool)
    ensures
        r == spec_is_executor(duties@),
{
    let mut i: usize = 0;
    while i < duties.len()
        invariant
            i <= duties@.len(),
            forall|j: int| 0 <= j < i ==> !is_active_inspection_duty(#[trigger] duties@[j]),
        decreases duties.len() - i,
    {
        let d = &duties[i];
        if d.duty_type == StudentDutyType::InspectionExecutor && d.status
            == DutyAssignmentStatus::Active {
            assert(is_active_inspection_duty(duties@[i as int]));
            return true;
        }
        i = i + 1;
    }
    false
}

/// Refuses a student that holds no active inspection executor duty.
pub fn ensure_inspection_executor(duties: &Vec<StudentDutyAssignment>) -> (r: Result<(), ApiError>)
    ensures
        match r {
            Ok(()) => spec_is_executor(duties@),
            Err(e) => !spec_is_executor(duties@) && error_is(
                e,
                ApiErrorKind::Unauthorized,
                "student does not have active inspection executor duty"@,
            ),
        },
{
    if !is_inspection_executor(duties) {
        return Err(ApiError::unauthorized("student does not have active inspection executor duty"));
    }
    Ok(())
}

/// Whether the student holding `duties` may inspect `room`.
pub fn executor_can_access_room(duties: &Vec<StudentDutyAssignment>, room: &RoomPlacement) -> (r:
    bool)
    ensures
        r == spec_can_access_room(duties@, *room),
{
    let mut i: usize = 0;
    while i < duties.len()
        invariant
            i <= duties@.len(),
            forall|j: int|
                0 <= j < i ==> !(is_active_inspection_duty(#[trigger] duties@[j])
                    && duty_scope_covers_room(duties@[j], *room)),
        decreases duties.len() - i,
    {
        let d = &duties[i];
        if d.duty_type == StudentDutyType::InspectionExecutor && d.status
            == DutyAssignmentStatus::Active && duty_covers_room(d, room) {
            assert(is_active_inspection_duty(duties@[i as int]));
            return true;
        }
        i = i + 1;
    }
    false
}

/// Refuses an executor whose duties do not take in `room`.
pub fn ensure_executor_can_access_room(
    duties: &Vec<StudentDutyAssignment>,
    room: &RoomPlacement,
) -> (r: Result<(), ApiError>)
    ensures
        match r {
            Ok(()) => spec_can_access_room(duties@, *room),
            Err(e) => !spec_can_access_room(duties@, *room) && error_is(
                e,
                ApiErrorKind::Unauthorized,
                "student executor cannot access this room"@,
            ),
        },
{
    if !executor_can_access_room(duties, room) {
        return Err(ApiError::unauthorized("student executor cannot access this room"));
    }
    Ok(())
}

/// The assignment under which an executor works on a task, or the refusal
/// when there is none.
pub fn require_execution_assignment(assignment_id: Option<String>) -> (r: Result<String, ApiError>)
    ensures
        match assignment_id {
            Some(id) => r matches Ok(a) && a@ == id@,
            None => r matches Err(e) && error_is(
                e,
                ApiErrorKind::Unauthorized,
                "student is not assigned to this inspection task"@,
            ),
        },
{
    match assignment_id {
        Some(id) => Ok(id),
        None => Err(ApiError::unauthorized("student is not assigned to this inspection task")),
    }
}

/// Every room an executor may access is reached through an active
/// inspection executor duty, so such a student is an executor.
pub proof fn lemma_room_access_needs_executor(
    duties: Seq<StudentDutyAssignment>,
    room: RoomPlacement,
)
    requires
        spec_can_access_room(duties, room),
    ensures
        spec_is_executor(duties),
{
    let i = choose|i: int|
        0 <= i < duties.len() && is_active_inspection_duty(#[trigger] duties[i])
            && duty_scope_covers_room(duties[i], room);
    assert(is_active_inspection_duty(duties[i]));
}

// ---------------------------------------------------------------------------
// Leave

/// `l` is an approved leave whose period contains the instant `at`.
pub open spec fn leave_covers(l: LeaveWindow, at: i64) -> bool {
    l.status == LeaveStatus::Approved && l.starts_at <= at && at <= l.ends_at
}

/// Some leave in `leaves` covers `at`.
pub open spec fn some_leave_covers(leaves: Seq<LeaveWindow>, at: i64) -> bool {
    exists|i: int| 0 <= i < leaves.len() && leave_covers(#[trigger] leaves[i], at)
}

/// Leave `i` covers `at` and was submitted no earlier than any other leave
/// that covers `at`.
pub open spec fn is_latest_covering(leaves: Seq<LeaveWindow>, at: i64, i: int) -> bool {
    &&& 0 <= i < leaves.len()
    &&& leave_covers(leaves[i], at)
    &&& forall|j: int|
        0 <= j < leaves.len() && leave_covers(#[trigger] leaves[j], at) ==> leaves[j].submitted_at
            <= leaves[i].submitted_at
}

/// `r` is the leave that turns a record with result `record_result` into
/// `leave`: the latest covering leave for an unknown record, None when the
/// record is no longer unknown or no leave covers `at`.
pub open spec fn is_leave_choice(
    record_result: InspectionResult,
    leaves: Seq<LeaveWindow>,
    at: i64,
    r: Option<String>,
) -> bool {
    match r {
        Some(id) => record_result == InspectionResult::Unknown && exists|i: int|
            is_latest_covering(leaves, at, i) && (#[trigger] leaves[i]).id@ == id@,
        None => record_result != InspectionResult::Unknown || !some_leave_covers(leaves, at),
    }
}

/// Some leave in `leaves` with id `id` is approved and its period, ends
/// included, contains `at`.
pub open spec fn approved_leave_named(leaves: Seq<LeaveWindow>, at: i64, id: Seq<char>) -> bool {
    exists|i: int|
        0 <= i < leaves.len() && (#[trigger] leaves[i]).id@ == id && leaves[i].status
            == LeaveStatus::Approved && leaves[i].starts_at <= at && at <= leaves[i].ends_at
}

/// The leave that turns an inspection record into `leave`: for a record that
/// is still unknown, the most recently submitted approved leave of the
/// student whose period contains the task's scheduled instant; None when the
/// record is no longer unknown or no approved leave covers that instant.
pub fn leave_to_apply(
    record_result: InspectionResult,
    leaves: &Vec<LeaveWindow>,
    scheduled_at: i64,
) -> (r: Option<String>)
    ensures
        is_leave_choice(record_result, leaves@, scheduled_at, r),
        r matches Some(id) ==> approved_leave_named(leaves@, scheduled_at, id@),
        (forall|i: int| 0 <= i < leaves@.len() ==> (#[trigger] leaves@[i]).status
            != LeaveStatus::Approved) ==> r is None,
{
    if record_result != InspectionResult::Unknown {
        return None;
    }
    let mut best: Option<usize> = None;
    let mut i: usize = 0;
    while i < leaves.len()
        invariant
            i <= leaves@.len(),
            match best {
                Some(b) => {
                    &&& b < i
                    &&& leave_covers(leaves@[b as int], scheduled_at)
                    &&& forall|j: int|
                        0 <= j < i && leave_covers(#[trigger] leaves@[j], scheduled_at)
                            ==> leaves@[j].submitted_at <= leaves@[b as int].submitted_at
                },
                None => forall|j: int| 0 <= j < i ==> !leave_covers(#[trigger] leaves@[j], scheduled_at),
            },
        decreases leaves.len() - i,
    {
        let l = &leaves[i];
        if l.status == LeaveStatus::Approved && l.starts_at <= scheduled_at && scheduled_at
            <= l.ends_at {
            assert(leave_covers(leaves@[i as int], scheduled_at));
            match best {
                Some(b) => {
                    if l.submitted_at > leaves[b].submitted_at {
                        best = Some(i);
                    }
                },
                None => {
                    best = Some(i);
                },
            }
        }
        i = i + 1;
    }
    match best {
        Some(b) => {
            assert(is_latest_covering(leaves@, scheduled_at, b as int));
            Some(leaves[b].id.clone())
        },
        None => None,
    }
}

// ---------------------------------------------------------------------------
// Token issuing

/// A QR token of an inspection record as stored: its id and status.
#[derive(Clone, Debug)]
pub struct QrTokenState {
    pub id: String,
    pub status: InspectionQrTokenStatus,
}

/// `id` is the id of an active token among `tokens`.
pub open spec fn is_active_token_id(tokens: Seq<QrTokenState>, id: Seq<char>) -> bool {
    exists|i: int|
        0 <= i < tokens.len() && (#[trigger] tokens[i]).status == InspectionQrTokenStatus::Active
            && tokens[i].id@ == id
}

/// The ids of the tokens among `tokens` that are active.
pub fn tokens_to_revoke(tokens: &Vec<QrTokenState>) -> (r: Vec<String>)
    ensures
        forall|i: int|
            0 <= i < tokens@.len() && (#[trigger] tokens@[i]).status == InspectionQrTokenStatus::Active
                ==> ids_contain(r@, tokens@[i].id@),
        forall|j: int| 0 <= j < r@.len() ==> is_active_token_id(tokens@, (#[trigger] r@[j])@),
{
    let mut r: Vec<String> = Vec::new();
    let mut i: usize = 0;
    while i < tokens.len()
        invariant
            i <= tokens@.len(),
            forall|k: int|
                0 <= k < i && (#[trigger] tokens@[k]).status == InspectionQrTokenStatus::Active
                    ==> ids_contain(r@, tokens@[k].id@),
            forall|j: int| 0 <= j < r@.len() ==> is_active_token_id(tokens@, (#[trigger] r@[j])@),
        decreases tokens.len() - i,
    {
        if tokens[i].status == InspectionQrTokenStatus::Active {
            let ghost old_r = r@;
            r.push(tokens[i].id.clone());
            assert(r@[r@.len() - 1] == tokens@[i as int].id);
            assert forall|k: int|
                0 <= k <= i && (#[trigger] tokens@[k]).status == InspectionQrTokenStatus::Active
                    implies ids_contain(r@, tokens@[k].id@) by {
                if k < i {
                    let j = choose|j: int| 0 <= j < old_r.len() && (#[trigger] old_r[j])@ == tokens@[k].id@;
                    assert(r@[j] == old_r[j]);
                } else {
                    assert(r@[r@.len() - 1]@ == tokens@[k].id@);
                }
            }
            assert forall|j: int| 0 <= j < r@.len() implies is_active_token_id(
                tokens@,
                (#[trigger] r@[j])@,
            ) by {
                if j < old_r.len() {
                    assert(r@[j] == old_r[j]);
                    assert(is_active_token_id(tokens@, old_r[j]@));
                } else {
                    assert(tokens@[i as int].id@ == r@[j]@);
                    assert(is_active_token_id(tokens@, tokens@[i as int].id@));
                }
            }
        }
        i = i + 1;
    }
    r
}

/// The status token `t` keeps when the tokens with ids `revoked` are
/// revoked: an active token among them becomes revoked.
pub open spec fn status_after_revoking(t: QrTokenState, revoked: Seq<String>) -> InspectionQrTokenStatus {
    if t.status == InspectionQrTokenStatus::Active && ids_contain(revoked, t.id@) {
        InspectionQrTokenStatus::Revoked
    } else {
        t.status
    }
}

/// Issuing a token leaves it the only active token of its record: once the
/// ids `tokens_to_revoke` gives are revoked, none of the record's earlier
/// tokens is active, so the token issued next (active) is the only one.
pub proof fn lemma_issue_leaves_one_active(tokens: Seq<QrTokenState>, revoked: Seq<String>)
    requires
        forall|i: int|
            0 <= i < tokens.len() && (#[trigger] tokens[i]).status == InspectionQrTokenStatus::Active
                ==> ids_contain(revoked, tokens[i].id@),
    ensures
        forall|i: int|
            0 <= i < tokens.len() ==> status_after_revoking(#[trigger] tokens[i], revoked)
                != InspectionQrTokenStatus::Active,
{
}

// ---------------------------------------------------------------------------
// Whole decisions

/// What an inspection record, its task and its student look like when the
/// student asks for a QR token.
#[derive(Clone, Debug)]
pub struct QrIssueFacts {
    pub record_result: InspectionResult,
    pub task_status: TaskStatus,
    pub record_room_id: String,
    pub accommodation_room_id: Option<String>,
    pub scheduled_at: i64,
    pub leaves: Vec<LeaveWindow>,
}

/// What to do with a request for a QR token.
#[derive(Clone, Debug)]
pub enum QrIssueDecision {
    /// Refuse with this error.
    Refuse(ApiError),
    /// Mark the record as `leave` under this approved leave, and refuse.
    CoveredByLeave(String),
    /// Revoke the record's active tokens and issue a fresh one.
    Issue,
}

/// `r` is the decision on a request for a QR token with facts `f`: refused
/// as `qr_issue_refusal` says unless the record is unknown, the task
/// executable and the student living in the record's room; then the latest
/// covering approved leave, if any, turns the record into leave; otherwise a
/// token is issued.
pub open spec fn is_qr_issue_decision(f: QrIssueFacts, r: QrIssueDecision) -> bool {
    match r {
        QrIssueDecision::Issue => {
            &&& f.record_result == InspectionResult::Unknown
            &&& task_is_executable(f.task_status)
            &&& (f.accommodation_room_id matches Some(a) && a@ == f.record_room_id@)
            &&& !some_leave_covers(f.leaves@, f.scheduled_at)
        },
        QrIssueDecision::CoveredByLeave(id) => {
            &&& f.record_result == InspectionResult::Unknown
            &&& task_is_executable(f.task_status)
            &&& (f.accommodation_room_id matches Some(a) && a@ == f.record_room_id@)
            &&& exists|i: int|
                is_latest_covering(f.leaves@, f.scheduled_at, i) && (
                #[trigger] f.leaves@[i]).id@ == id@
        },
        QrIssueDecision::Refuse(e) => !(f.record_result == InspectionResult::Unknown
            && task_is_executable(f.task_status) && (
        f.accommodation_room_id matches Some(a) && a@ == f.record_room_id@))
            && qr_issue_refusal(
            e,
            f.record_result,
            f.task_status,
            f.record_room_id@,
            f.accommodation_room_id,
        ),
    }
}

/// Decides a request for a QR token: the record, task and accommodation
/// must pass `check_qr_issuable`; then a record that an approved leave
/// covers becomes `leave` instead of getting a token.
pub fn decide_qr_issue(facts: &QrIssueFacts) -> (r: QrIssueDecision)
    ensures
        is_qr_issue_decision(*facts, r),
        facts.record_result == InspectionResult::Unknown && facts.task_status
            != TaskStatus::Published && facts.task_status != TaskStatus::Processing ==> (
        r matches QrIssueDecision::Refuse(e) && error_is(
            e,
            ApiErrorKind::BadRequest,
            "inspection task is not available for QR token issuing"@,
        )),
        r matches QrIssueDecision::CoveredByLeave(id) ==> approved_leave_named(
            facts.leaves@,
            facts.scheduled_at,
            id@,
        ),
{
    match check_qr_issuable(
        facts.record_result,
        facts.task_status,
        facts.record_room_id.as_str(),
        &facts.accommodation_room_id,
    ) {
        Ok(()) => {},
        Err(e) => return QrIssueDecision::Refuse(e),
    }
    match leave_to_apply(facts.record_result, &facts.leaves, facts.scheduled_at) {
        Some(id) => QrIssueDecision::CoveredByLeave(id),
        None => QrIssueDecision::Issue,
    }
}

/// Everything a QR scan is checked against: the token's status and expiry,
/// the task and record it is for, the room it names and where its student
/// lives, the executor's duties and the room's placement, and the
/// executor's assignment to the task.
#[derive(Clone, Debug)]
pub struct ScanFacts {
    pub token_status: String,
    pub expired: bool,
    pub task_status: TaskStatus,
    pub record_result: InspectionResult,
    pub qr_room_id: String,
    pub active_room_id: Option<String>,
    pub executor_duties: Vec<StudentDutyAssignment>,
    pub room: RoomPlacement,
    pub assignment_id: Option<String>,
}

/// What to do with a submitted QR scan.
#[derive(Clone, Debug)]
pub enum ScanDecision {
    /// Store the scan with result `accepted`, made under the given
    /// assignment; the inspection record becomes present and the token used.
    Accept(String),
    /// Store the scan with result `rejected` and `reason`, made under the
    /// executor's assignment to the task when there is one; when
    /// `mark_expired` holds, the token's status becomes expired.
    Reject { assignment_id: Option<String>, reason: String, mark_expired: bool },
    /// No token has the submitted hash, so there is nothing to store a scan
    /// against: answer with this error.
    Refuse(ApiError),
}

/// All conditions under which a scan confirms a student present.
pub open spec fn scan_allowed(f: ScanFacts) -> bool {
    &&& f.token_status@ == "active"@
    &&& !f.expired
    &&& task_is_executable(f.task_status)
    &&& f.record_result == InspectionResult::Unknown
    &&& (f.active_room_id matches Some(a) && a@ == f.qr_room_id@)
    &&& spec_is_executor(f.executor_duties@)
    &&& f.assignment_id is Some
    &&& spec_can_access_room(f.executor_duties@, f.room)
}

/// Why a scan that is not allowed is rejected: the first of the scan's
/// conditions that fails, in the order token, task, record, accommodation,
/// executor duty, assignment, room access.
pub open spec fn scan_rejection_reason(f: ScanFacts) -> Seq<char> {
    if f.token_status@ != "active"@ {
        "QR token is not active"@
    } else if f.expired {
        "QR token is expired"@
    } else if !task_is_executable(f.task_status) {
        "inspection task is not executable"@
    } else if f.record_result != InspectionResult::Unknown {
        "inspection record is no longer unknown"@
    } else if !(f.active_room_id matches Some(a) && a@ == f.qr_room_id@) {
        "student active accommodation does not match QR room"@
    } else if !spec_is_executor(f.executor_duties@) {
        "student does not have active inspection executor duty"@
    } else if f.assignment_id is None {
        "student is not assigned to this inspection task"@
    } else {
        "student executor cannot access this room"@
    }
}

/// The scan finds an active token past its expiry.
pub open spec fn scan_finds_expired(f: ScanFacts) -> bool {
    f.token_status@ == "active"@ && f.expired
}

/// `d` is the decision on a scan with facts `f`: accepted exactly when
/// `scan_allowed` holds; otherwise stored as rejected, under the executor's
/// assignment if any, with the reason `scan_rejection_reason` gives; an
/// active token found expired is marked so.
pub open spec fn is_scan_decision(f: ScanFacts, d: ScanDecision) -> bool {
    match d {
        ScanDecision::Accept(id) => scan_allowed(f) && (f.assignment_id matches Some(a) && a@
            == id@),
        ScanDecision::Reject { assignment_id, reason, mark_expired } => !scan_allowed(f)
            && assignment_id == f.assignment_id && reason@ == scan_rejection_reason(f)
            && mark_expired == scan_finds_expired(f),
        ScanDecision::Refuse(_) => false,
    }
}

/// Decides a QR scan of a token that exists, as `is_scan_decision` says.
pub fn decide_scan(facts: &ScanFacts) -> (r: ScanDecision)
    ensures
        is_scan_decision(*facts, r),
        facts.task_status != TaskStatus::Published && facts.task_status != TaskStatus::Processing
            ==> (r matches ScanDecision::Reject { reason, .. } && (facts.token_status@ == "active"@
            && !facts.expired ==> reason@ == "inspection task is not executable"@)),
{
    let mark_expired = str_eq(facts.token_status.as_str(), "active") && facts.expired;
    let reject = |e: ApiError| -> (d: ScanDecision)
        ensures
            d == (ScanDecision::Reject {
                assignment_id: facts.assignment_id,
                reason: e.message,
                mark_expired,
            }),
        {
            ScanDecision::Reject {
                assignment_id: facts.assignment_id.clone(),
                reason: e.message,
                mark_expired,
            }
        };
    match check_token_usable(facts.token_status.as_str(), facts.expired) {
        Ok(()) => {},
        Err(e) => return reject(e),
    }
    match check_scan_target(
        facts.task_status,
        facts.record_result,
        &facts.active_room_id,
        facts.qr_room_id.as_str(),
    ) {
        Ok(()) => {},
        Err(e) => return reject(e),
    }
    match ensure_inspection_executor(&facts.executor_duties) {
        Ok(()) => {},
        Err(e) => return reject(e),
    }
    let assignment = match require_execution_assignment(facts.assignment_id.clone()) {
        Ok(a) => a,
        Err(e) => return reject(e),
    };
    match ensure_executor_can_access_room(&facts.executor_duties, &facts.room) {
        Ok(()) => {},
        Err(e) => return reject(e),
    }
    ScanDecision::Accept(assignment)
}

/// Decides a submitted QR scan: refused when no token has the submitted
/// hash (`found` is None), decided by `decide_scan` otherwise.
pub fn decide_submitted_scan(found: &Option<ScanFacts>) -> (r: ScanDecision)
    ensures
        match *found {
            None => r matches ScanDecision::Refuse(e) && error_is(
                e,
                ApiErrorKind::BadRequest,
                "QR token does not exist"@,
            ),
            Some(f) => is_scan_decision(f, r),
        },
{
    match found {
        None => ScanDecision::Refuse(missing_qr_token_error()),
        Some(f) => decide_scan(f),
    }
}

/// The status a token has after decision `d` on a scan of it, when it had
/// `status` before: used after an accepted scan, expired when the decision
/// marks it so, unchanged otherwise.
pub open spec fn status_after_decision(d: ScanDecision, status: Seq<char>) -> Seq<char> {
    match d {
        ScanDecision::Accept(_) => "used"@,
        ScanDecision::Reject { mark_expired, .. } => if mark_expired {
            "expired"@
        } else {
            status
        },
        ScanDecision::Refuse(_) => status,
    }
}

/// The status to store for a token after `decision` on a scan of it, when
/// it had `status` before.
pub fn token_status_after(decision: &ScanDecision, status: &str) -> (r: String)
    ensures
        r@ == status_after_decision(*decision, status@),
{
    match decision {
        ScanDecision::Accept(_) => String::from_str("used"),
        ScanDecision::Reject { mark_expired, .. } => if *mark_expired {
            String::from_str("expired")
        } else {
            String::from_str(status)
        },
        ScanDecision::Refuse(_) => String::from_str(status),
    }
}

/// The status a token has after a scan with facts `f`.
pub open spec fn status_after_scan(f: ScanFacts) -> Seq<char> {
    if scan_allowed(f) {
        "used"@
    } else if scan_finds_expired(f) {
        "expired"@
    } else {
        f.token_status@
    }
}

/// Whatever decision `decide_scan` takes, `token_status_after` stores the
/// status `status_after_scan` gives.
pub proof fn lemma_status_after_decision(f: ScanFacts, d: ScanDecision)
    requires
        is_scan_decision(f, d),
    ensures
        status_after_decision(d, f.token_status@) == status_after_scan(f),
{
}

/// `fs` are successive scans of one token: each finds the token in the
/// status the scan before left it in.
pub open spec fn successive_scans(fs: Seq<ScanFacts>) -> bool
    decreases fs.len(),
{
    fs.len() <= 1 || (fs[1].token_status@ == status_after_scan(fs[0]) && successive_scans(
        fs.drop_first(),
    ))
}

/// How many of the scans `fs` confirm a student present.
pub open spec fn accepted_scans(fs: Seq<ScanFacts>) -> nat
    decreases fs.len(),
{
    if fs.len() == 0 {
        0
    } else {
        (if scan_allowed(fs[0]) {
            1nat
        } else {
            0nat
        }) + accepted_scans(fs.drop_first())
    }
}

proof fn lemma_inactive_token_stays_unaccepted(fs: Seq<ScanFacts>)
    requires
        successive_scans(fs),
        fs.len() > 0,
        fs[0].token_status@ != "active"@,
    ensures
        accepted_scans(fs) == 0,
    decreases fs.len(),
{
    reveal_strlit("active");
    assert(!scan_allowed(fs[0]));
    if fs.len() > 1 {
        assert(fs.drop_first()[0] == fs[1]);
        lemma_inactive_token_stays_unaccepted(fs.drop_first());
    } else {
        assert(fs.drop_first().len() == 0);
        assert(accepted_scans(fs.drop_first()) == 0);
    }
}

/// A QR token confirms at most one scan: over any run of successive scans of
/// one token, at most one is accepted, since an accepted scan leaves the
/// token used and a token that is not active is never accepted again.
pub proof fn lemma_token_accepted_at_most_once(fs: Seq<ScanFacts>)
    requires
        successive_scans(fs),
    ensures
        accepted_scans(fs) <= 1,
    decreases fs.len(),
{
    reveal_strlit("used");
    reveal_strlit("active");
    if fs.len() > 1 {
        assert(fs.drop_first()[0] == fs[1]);
        if scan_allowed(fs[0]) {
            assert(fs[1].token_status@ == "used"@);
            assert(fs[1].token_status@ != "active"@);
            lemma_inactive_token_stays_unaccepted(fs.drop_first());
        } else {
            lemma_token_accepted_at_most_once(fs.drop_first());
        }
    } else if fs.len() == 1 {
        assert(fs.drop_first().len() == 0);
        assert(accepted_scans(fs.drop_first()) == 0);
    }
}

/// A scan can only confirm a record that is still unknown: records already
/// present, absent or on leave are never overwritten by a scan.
pub proof fn lemma_scan_never_overwrites(f: ScanFacts)
    requires
        f.record_result != InspectionResult::Unknown,
    ensures
        !scan_allowed(f),
{
}

/// An expired QR token never confirms a student present, whatever else holds.
pub proof fn lemma_expired_token_never_accepted(f: ScanFacts)
    requires
        f.expired,
    ensures
        !scan_allowed(f),
{
}

/// A student whose duties are all class monitor duties is no inspection
/// executor and may inspect no room, so none of their scans is accepted.
pub proof fn lemma_monitor_duties_cannot_inspect(f: ScanFacts)
    requires
        forall|i: int|
            0 <= i < f.executor_duties@.len() ==> (#[trigger] f.executor_duties@[i]).duty_type
                == StudentDutyType::ClassMonitor,
    ensures
        !spec_is_executor(f.executor_duties@),
        !spec_can_access_room(f.executor_duties@, f.room),
        !scan_allowed(f),
{
}

/// Only a task that is published or processing can be executed: a scan of a
/// token whose task is in any other state (draft, completed, cancelled) is
/// rejected, and when the token itself is active and unexpired the reason is
/// that the task is not executable; the record and the token stay as they were.
pub proof fn lemma_scan_of_unexecutable_task_rejected(f: ScanFacts, d: ScanDecision)
    requires
        is_scan_decision(f, d),
        f.task_status != TaskStatus::Published,
        f.task_status != TaskStatus::Processing,
    ensures
        d matches ScanDecision::Reject { reason, mark_expired, .. } && (f.token_status@ == "active"@
            && !f.expired ==> reason@ == "inspection task is not executable"@ && !mark_expired),
        f.token_status@ == "active"@ && !f.expired ==> status_after_decision(d, f.token_status@)
            == "active"@,
{
}

/// A scan of an active, unexpired token of a published or processing task,
/// for a record still unknown, of a student living in the token's room, by
/// an assigned executor whose duties take in the room, is accepted under
/// that assignment.
pub proof fn lemma_valid_scan_accepted(f: ScanFacts, d: ScanDecision)
    requires
        is_scan_decision(f, d),
        f.token_status@ == "active"@,
        !f.expired,
        f.task_status == TaskStatus::Published || f.task_status == TaskStatus::Processing,
        f.record_result == InspectionResult::Unknown,
        f.active_room_id matches Some(a) && a@ == f.qr_room_id@,
        f.assignment_id is Some,
        spec_can_access_room(f.executor_duties@, f.room),
    ensures
        d matches ScanDecision::Accept(id) && id@ == f.assignment_id->0@,
{
    lemma_room_access_needs_executor(f.executor_duties@, f.room);
}

/// No QR token is issued for a record of a task that is neither published nor
/// processing: the request is refused as a task not available for issuing.
pub proof fn lemma_qr_issue_needs_executable_task(f: QrIssueFacts, r: QrIssueDecision)
    requires
        is_qr_issue_decision(f, r),
        f.record_result == InspectionResult::Unknown,
        f.task_status != TaskStatus::Published,
        f.task_status != TaskStatus::Processing,
    ensures
        r matches QrIssueDecision::Refuse(e) && e.kind == ApiErrorKind::BadRequest && e.message@
            == "inspection task is not available for QR token issuing"@,
{
}

/// The leave that turns a record into `leave` is always an approved leave
/// whose period, ends included, contains the task's scheduled instant; a
/// list without an approved leave never turns a record into leave; and an
/// unknown record with an approved leave covering the instant always does.
pub proof fn lemma_applied_leave_is_approved(
    record_result: InspectionResult,
    leaves: Seq<LeaveWindow>,
    at: i64,
    r: Option<String>,
)
    requires
        is_leave_choice(record_result, leaves, at, r),
    ensures
        r matches Some(id) ==> exists|i: int|
            0 <= i < leaves.len() && (#[trigger] leaves[i]).id@ == id@ && leaves[i].status
                == LeaveStatus::Approved && leaves[i].starts_at <= at && at <= leaves[i].ends_at,
        (forall|i: int| 0 <= i < leaves.len() ==> (#[trigger] leaves[i]).status
            != LeaveStatus::Approved) ==> r is None,
        record_result == InspectionResult::Unknown && (exists|i: int|
            0 <= i < leaves.len() && (#[trigger] leaves[i]).status == LeaveStatus::Approved
                && leaves[i].starts_at <= at && at <= leaves[i].ends_at) ==> r is Some,
        record_result != InspectionResult::Unknown ==> r is None,
{
    if r is Some {
        let i = choose|i: int|
            is_latest_covering(leaves, at, i) && (#[trigger] leaves[i]).id@ == r->0@;
        assert(leave_covers(leaves[i], at));
    }
    if record_result == InspectionResult::Unknown && (exists|i: int|
        0 <= i < leaves.len() && (#[trigger] leaves[i]).status == LeaveStatus::Approved
            && leaves[i].starts_at <= at && at <= leaves[i].ends_at) {
        let i = choose|i: int|
            0 <= i < leaves.len() && (#[trigger] leaves[i]).status == LeaveStatus::Approved
                && leaves[i].starts_at <= at && at <= leaves[i].ends_at;
        assert(leave_covers(leaves[i], at));
        assert(some_leave_covers(leaves, at));
    }
}

/// A scan is accepted exactly when all of these hold: the token is active
/// and unexpired, its task is published or processing, the record is still
/// unknown, the record's student lives in the token's room, and the executor
/// holds an active inspection executor duty whose scope takes in the room
/// and is assigned to the task.
pub proof fn lemma_accepted_scan_meets_every_condition(f: ScanFacts, d: ScanDecision)
    requires
        is_scan_decision(f, d),
    ensures
        d is Accept <==> {
            &&& f.token_status@ == "active"@
            &&& !f.expired
            &&& (f.task_status == TaskStatus::Published || f.task_status == TaskStatus::Processing)
            &&& f.record_result == InspectionResult::Unknown
            &&& (f.active_room_id matches Some(a) && a@ == f.qr_room_id@)
            &&& f.assignment_id is Some
            &&& exists|i: int|
                0 <= i < f.executor_duties@.len() && (#[trigger] f.executor_duties@[i]).duty_type
                    == StudentDutyType::InspectionExecutor && f.executor_duties@[i].status
                    == DutyAssignmentStatus::Active && duty_scope_covers_room(
                    f.executor_duties@[i],
                    f.room,
                )
        },
{
    if d is Accept {
        let i = choose|i: int|
            0 <= i < f.executor_duties@.len() && is_active_inspection_duty(
                #[trigger] f.executor_duties@[i],
            ) && duty_scope_covers_room(f.executor_duties@[i], f.room);
        assert(f.executor_duties@[i].duty_type == StudentDutyType::InspectionExecutor);
    }
    if f.token_status@ == "active"@ && !f.expired && (f.task_status == TaskStatus::Published
        || f.task_status == TaskStatus::Processing) && f.record_result == InspectionResult::Unknown
        && (f.active_room_id matches Some(a) && a@ == f.qr_room_id@) && f.assignment_id is Some
        && (exists|i: int|
        0 <= i < f.executor_duties@.len() && (#[trigger] f.executor_duties@[i]).duty_type
            == StudentDutyType::InspectionExecutor && f.executor_duties@[i].status
            == DutyAssignmentStatus::Active && duty_scope_covers_room(
            f.executor_duties@[i],
            f.room,
        )) {
        let i = choose|i: int|
            0 <= i < f.executor_duties@.len() && (#[trigger] f.executor_duties@[i]).duty_type
                == StudentDutyType::InspectionExecutor && f.executor_duties@[i].status
                == DutyAssignmentStatus::Active && duty_scope_covers_room(
                f.executor_duties@[i],
                f.room,
            );
        assert(is_active_inspection_duty(f.executor_duties@[i]));
        assert(spec_can_access_room(f.executor_duties@, f.room));
        lemma_room_access_needs_executor(f.executor_duties@, f.room);
    }
}

/// A QR token is issued only for an unknown record of a published or
/// processing task, to a student living in the record's room, when no
/// approved leave covers the task's scheduled instant.
pub proof fn lemma_issued_only_when_every_condition_holds(f: QrIssueFacts, r: QrIssueDecision)
    requires
        is_qr_issue_decision(f, r),
    ensures
        r is Issue ==> {
            &&& f.record_result == InspectionResult::Unknown
            &&& (f.task_status == TaskStatus::Published || f.task_status == TaskStatus::Processing)
            &&& (f.accommodation_room_id matches Some(a) && a@ == f.record_room_id@)
            &&& forall|i: int|
                0 <= i < f.leaves@.len() && (#[trigger] f.leaves@[i]).status
                    == LeaveStatus::Approved ==> !(f.leaves@[i].starts_at <= f.scheduled_at
                    && f.scheduled_at <= f.leaves@[i].ends_at)
        },
{
    if r is Issue {
        assert forall|i: int|
            0 <= i < f.leaves@.len() && (#[trigger] f.leaves@[i]).status
                == LeaveStatus::Approved implies !(f.leaves@[i].starts_at <= f.scheduled_at
            && f.scheduled_at <= f.leaves@[i].ends_at) by {
            if f.leaves@[i].starts_at <= f.scheduled_at && f.scheduled_at <= f.leaves@[i].ends_at {
                assert(leave_covers(f.leaves@[i], f.scheduled_at));
            }
        }
    }
}

/// Of the approved leaves covering the scheduled instant, the one applied
/// is the most recently submitted.
pub proof fn lemma_applied_leave_is_latest(
    record_result: InspectionResult,
    leaves: Seq<LeaveWindow>,
    at: i64,
    r: Option<String>,
)
    requires
        is_leave_choice(record_result, leaves, at, r),
    ensures
        r matches Some(id) ==> exists|i: int|
            0 <= i < leaves.len() && (#[trigger] leaves[i]).id@ == id@ && forall|j: int|
                0 <= j < leaves.len() && (#[trigger] leaves[j]).status == LeaveStatus::Approved
                    && leaves[j].starts_at <= at && at <= leaves[j].ends_at
                    ==> leaves[j].submitted_at <= leaves[i].submitted_at,
{
    if r is Some {
        let i = choose|i: int|
            is_latest_covering(leaves, at, i) && (#[trigger] leaves[i]).id@ == r->0@;
        assert forall|j: int|
            0 <= j < leaves.len() && (#[trigger] leaves[j]).status == LeaveStatus::Approved
                && leaves[j].starts_at <= at && at <= leaves[j].ends_at implies leaves[j].submitted_at
            <= leaves[i].submitted_at by {
            assert(leave_covers(leaves[j], at));
        }
    }
}

} // verus!
