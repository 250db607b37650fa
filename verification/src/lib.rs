//! Core of a desktop karma tracker: units of personal effort ("karma
//! points"), each tagged with a purpose and a lifecycle state, persisted in a
//! local relational store behind a repository interface, with a layered error
//! chain from the store up to the command boundary.

pub mod accounts_service;
pub mod api;
pub mod db;
pub mod karma;
pub mod karma_repository;
pub mod karma_service;
pub mod text;
pub mod user_repository;
pub mod user;
