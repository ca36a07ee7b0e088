use rust_api_framework::models::employee::{CreateEmployee, CreateEmployeesRequest, Employee};
use rust_api_framework::models::task::{
    CreateTaskRequest, PriorityLevel, Task, TaskStatus, UpdateTaskRequest,
};

#[test]
fn test_employee_new() {
    let employee = Employee {
        id: 1,
        external_id: "ext123".to_string(),
        first_name: "John".to_string(),
        last_name: "Doe".to_string(),
        store_id: Some(10),
        email: Some("test@test.com".to_string()),
    };

    assert_eq!(employee.id, 1);
    assert_eq!(employee.external_id, "ext123");
    assert_eq!(employee.first_name, "John");
    assert_eq!(employee.last_name, "Doe");
    assert_eq!(employee.store_id, Some(10));
    assert_eq!(employee.email, Some("test@test.com".to_string()));
}

#[test]
fn test_create_employee_request_validate_success() {
    let request = CreateEmployeesRequest {
        employees: vec![CreateEmployee {
            external_id: "ext123".to_string(),
            first_name: "John".to_string(),
            last_name: "Doe".to_string(),
            store_id: Some(10),
            email: Some("test@test.com".to_string()),
        }],
    };

    assert!(request.validate().is_ok());
}

#[test]
fn test_create_employee_request_validate_empty_list() {
    let request = CreateEmployeesRequest { employees: vec![] };
    assert_eq!(
        request.validate().unwrap_err(),
        "Employee list cannot be empty"
    );
}

#[test]
fn test_task_new() {
    let task = Task::new(
        1,
        "Test Task".to_string(),
        Some("Test description".to_string()),
        Some(PriorityLevel::High),
        Some(TaskStatus::InProgress),
        Some(42),
    );

    assert_eq!(task.id, 1);
    assert_eq!(task.title, "Test Task");
    assert_eq!(task.description, Some("Test description".to_string()));
    assert_eq!(task.priority_level, Some(PriorityLevel::High));
    assert_eq!(task.status, Some(TaskStatus::InProgress));
    assert_eq!(task.assigned_to, Some(42));
    assert!(task.completed_at.is_none());
    assert!(task.deleted_at.is_none());
}

#[test]
fn test_task_new_with_defaults() {
    let task = Task::new(1, "Test Task".to_string(), None, None, None, None);

    assert_eq!(task.status, Some(TaskStatus::ToDo));
    assert!(task.description.is_none());
    assert!(task.priority_level.is_some());
    assert!(task.assigned_to.is_none());
}

#[test]
fn test_task_status_display() {
    assert_eq!(TaskStatus::ToDo.to_string(), "To Do");
    assert_eq!(TaskStatus::InProgress.to_string(), "In Progress");
    assert_eq!(TaskStatus::Done.to_string(), "Done");
}

#[test]
fn test_priority_level_display() {
    assert_eq!(PriorityLevel::Low.to_string(), "Low");
    assert_eq!(PriorityLevel::Medium.to_string(), "Medium");
    assert_eq!(PriorityLevel::High.to_string(), "High");
}

#[test]
fn test_create_task_request_validate_success() {
    let request = CreateTaskRequest {
        title: "Valid Title".to_string(),
        description: Some("Valid description".to_string()),
        priority_level: Some(PriorityLevel::Medium),
        status: Some(TaskStatus::ToDo),
        assigned_to: Some(1),
    };

    assert!(request.validate().is_ok());
}

#[test]
fn test_create_task_request_validate_empty_title() {
    let request = CreateTaskRequest {
        title: "".to_string(),
        description: None,
        priority_level: None,
        status: None,
        assigned_to: None,
    };

    assert!(request.validate().is_err());
    assert_eq!(request.validate().unwrap_err(), "Title cannot be empty");
}

#[test]
fn test_create_task_request_validate_whitespace_title() {
    let request = CreateTaskRequest {
        title: "   ".to_string(),
        description: None,
        priority_level: None,
        status: None,
        assigned_to: None,
    };

    assert!(request.validate().is_err());
    assert_eq!(request.validate().unwrap_err(), "Title cannot be empty");
}

#[test]
fn test_update_task_request_validate_success() {
    let request = UpdateTaskRequest {
        title: Some("Updated Title".to_string()),
        description: Some("Updated description".to_string()),
        priority_level: Some(PriorityLevel::High),
        status: Some(TaskStatus::Done),
        assigned_to: Some(2),
    };

    assert!(request.validate().is_ok());
}

#[test]
fn test_update_task_request_validate_all_none() {
    let request = UpdateTaskRequest {
        title: None,
        description: None,
        priority_level: None,
        status: None,
        assigned_to: None,
    };

    assert!(request.validate().is_ok());
}

#[test]
fn test_update_task_request_validate_empty_title() {
    let request = UpdateTaskRequest {
        title: Some("".to_string()),
        description: None,
        priority_level: None,
        status: None,
        assigned_to: None,
    };

    assert!(request.validate().is_err());
    assert_eq!(request.validate().unwrap_err(), "Title cannot be empty");
}

#[test]
fn test_task_status_equality() {
    assert_eq!(TaskStatus::ToDo, TaskStatus::ToDo);
    assert_ne!(TaskStatus::ToDo, TaskStatus::InProgress);
}

#[test]
fn test_priority_level_equality() {
    assert_eq!(PriorityLevel::High, PriorityLevel::High);
    assert_ne!(PriorityLevel::Low, PriorityLevel::High);
}

#[test]
fn test_task_clone() {
    let task = Task::new(
        1,
        "Test Task".to_string(),
        None,
        Some(PriorityLevel::Medium),
        None,
        None,
    );

    let cloned_task = task.clone();
    assert_eq!(task.id, cloned_task.id);
    assert_eq!(task.title, cloned_task.title);
    assert_eq!(task.priority_level, cloned_task.priority_level);
}
