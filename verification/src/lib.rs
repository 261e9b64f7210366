//! Verified decision logic of the HIVE agent layer: tag parsing, containment
//! checks, tool registries, scheduling and the command parsers of the native tools.
pub mod text;
pub mod tags;
pub mod containment;
pub mod fmt;
pub mod lifecycle;
pub mod goal_planner;
pub mod catalogue;
pub mod models;
pub mod registry;
pub mod scheduler;
pub mod sub_agent;
pub mod params;
pub mod turing_tool;
pub mod file_writer;
pub mod opencode;
pub mod tool_forge;
pub mod dispatch;
pub mod calendar;
pub mod process;
pub mod contacts;
pub mod file_system;
pub mod file_reader;
pub mod preferences;
pub mod library;
pub mod skills;
pub mod routines;
pub mod outreach;
pub mod timeline;
pub mod lessons;
pub mod contributors;
pub mod email;
pub mod download;
pub mod compiler;
pub mod image;
pub mod moderation;
pub mod journal;
pub mod attachment;
pub mod memory_tools;
pub mod synthesis;
pub mod voice;
pub mod ledger;
pub mod turing_reports;
