//! A task-tracking service core: one verified use-case layer over a bounded
//! storage pool and an in-memory task table, exposed through two transport
//! adapters (an HTTP-style adapter and a tool-invocation adapter) whose
//! business behaviour is proved equivalent.

pub mod api_docs;
pub mod config;
pub mod http_handler;
pub mod laws;
pub mod mcp_handler;
pub mod response_type;
pub mod storage_pool;
pub mod supervisor;
pub mod task_table;
pub mod text;
pub mod todo_dto;
pub mod todo_entity;
pub mod todo_repository;
pub mod todo_usecase;
pub mod todolist_repository;
