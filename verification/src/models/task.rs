//! Task records, their status and priority enumerations, and the verified
//! validation of their create/update request shapes. Timestamps are whole
//! Unix seconds.
use crate::clock::{clock_in_range, now_seconds};
use crate::text::{is_blank, spec_is_blank};
use vstd::prelude::*;

verus! {

#[derive(Clone, Copy, Debug, PartialEq, Eq, Structural)]
pub enum TaskStatus {
    ToDo,
    InProgress,
    Done,
}

#[derive(Clone, Copy, Debug, PartialEq, Eq, Structural)]
pub enum PriorityLevel {
    Low,
    Medium,
    High,
}

impl TaskStatus {
    /// The human-readable label of the status.
    pub fn to_string(&self) -> (r: String)
        ensures
            match self {
                TaskStatus::ToDo => r@ == "To Do"@,
                TaskStatus::InProgress => r@ == "In Progress"@,
                TaskStatus::Done => r@ == "Done"@,
            },
    {
        match self {
            TaskStatus::ToDo => String::from_str("To Do"),
            TaskStatus::InProgress => String::from_str("In Progress"),
            TaskStatus::Done => String::from_str("Done"),
        }
    }
}

impl PriorityLevel {
    /// The human-readable label of the priority.
    pub fn to_string(&self) -> (r: String)
        ensures
            match self {
                PriorityLevel::Low => r@ == "Low"@,
                PriorityLevel::Medium => r@ == "Medium"@,
                PriorityLevel::High => r@ == "High"@,
            },
    {
        match self {
            PriorityLevel::Low => String::from_str("Low"),
            PriorityLevel::Medium => String::from_str("Medium"),
            PriorityLevel::High => String::from_str("High"),
        }
    }
}

#[derive(Clone)]
pub struct Task {
    pub id: i32,
    pub title: String,
    pub description: Option<String>,
    pub priority_level: Option<PriorityLevel>,
    pub status: Option<TaskStatus>,
    pub assigned_to: Option<i32>,
    pub completed_at: Option<i64>,
    pub created_at: i64,
    pub updated_at: i64,
    pub deleted_at: Option<i64>,
}

#[derive(Clone)]
pub struct CreateTaskRequest {
    pub title: String,
    pub description: Option<String>,
    pub priority_level: Option<PriorityLevel>,
    pub status: Option<TaskStatus>,
    pub assigned_to: Option<i32>,
}

#[derive(Clone)]
pub struct UpdateTaskRequest {
    pub title: Option<String>,
    pub description: Option<String>,
    pub priority_level: Option<PriorityLevel>,
    pub status: Option<TaskStatus>,
    pub assigned_to: Option<i32>,
}

#[derive(Clone)]
pub struct TaskQuery {
    pub limit: Option<usize>,
    pub offset: Option<usize>,
    pub id: Option<i32>,
    pub title: Option<String>,
    pub status: Option<TaskStatus>,
    pub priority_level: Option<PriorityLevel>,
    pub assigned_to: Option<i32>,
    pub sort_by: Option<String>,
    pub sort_direction: Option<String>,
}

impl Task {
    /// A fresh record: the priority defaults to medium and the status to
    /// to-do, both timestamps are one reading of the clock, and the record
    /// is neither completed nor deleted.
    pub fn new(
        id: i32,
        title: String,
        description: Option<String>,
        priority_level: Option<PriorityLevel>,
        status: Option<TaskStatus>,
        assigned_to: Option<i32>,
    ) -> (r: Task)
        ensures
            r.id == id,
            r.title@ == title@,
            r.description.deep_view() == description.deep_view(),
            r.priority_level == Some(
                match priority_level {
                    Some(p) => p,
                    None => PriorityLevel::Medium,
                },
            ),
            r.status == Some(
                match status {
                    Some(s) => s,
                    None => TaskStatus::ToDo,
                },
            ),
            r.assigned_to == assigned_to,
            r.completed_at is None,
            r.deleted_at is None,
            r.created_at == r.updated_at,
            clock_in_range(r.created_at as int),
    {
        let now: i64 = now_seconds();
        let priority: PriorityLevel = match priority_level {
            Some(p) => p,
            None => PriorityLevel::Medium,
        };
        let status_or_default: TaskStatus = match status {
            Some(s) => s,
            None => TaskStatus::ToDo,
        };
        Task {
            id,
            title,
            description,
            priority_level: Some(priority),
            status: Some(status_or_default),
            assigned_to,
            completed_at: None,
            created_at: now,
            updated_at: now,
            deleted_at: None,
        }
    }
}

impl CreateTaskRequest {
    /// A create request is valid exactly when its title is not blank.
    pub fn validate(&self) -> (r: Result<(), String>)
        ensures
            match r {
                Ok(_) => !spec_is_blank(self.title@),
                Err(m) => spec_is_blank(self.title@) && m@ == "Title cannot be empty"@,
            },
    {
        if is_blank(self.title.as_str()) {
            return Err(String::from_str("Title cannot be empty"));
        }
        Ok(())
    }
}

impl UpdateTaskRequest {
    /// An update request is valid exactly when its title, if it carries one,
    /// is not blank.
    pub fn validate(&self) -> (r: Result<(), String>)
        ensures
            match r {
                Ok(_) => match self.title {
                    Some(t) => !spec_is_blank(t@),
                    None => true,
                },
                Err(m) => (self.title matches Some(t) && spec_is_blank(t@)) && m@
                    == "Title cannot be empty"@,
            },
    {
        if let Some(t) = &self.title {
            if is_blank(t.as_str()) {
                return Err(String::from_str("Title cannot be empty"));
            }
        }
        Ok(())
    }
}

} // verus!
