//! Core logic of a small IDE for esoteric languages: interpreter
//! configuration, terminal and breakpoint state, the worker's message
//! handling and the collection of an interpreter process's output.

pub mod breakpoint;
pub mod collector;
pub mod config;
pub mod controller;
pub mod debug;
pub mod editor;
pub mod encoding;
pub mod interpreter;
pub mod terminal_model;
pub mod terminal_panel;
pub mod terminal_view;
pub mod text;
pub mod worker;

pub use breakpoint::BreakpointPanel;
pub use collector::{CollectAction, CollectEvent, CollectPhase, OutputCollector, StreamMsg};
pub use config::{ExtInterpreter, ExtInterpreterConfig};
pub use debug::{DebugSession, DebugState};
pub use controller::AppController;
pub use editor::EditorView;
pub use encoding::decode_output;
pub use interpreter::{
    ByteBuf, CodeLine, ExternalInterpreter, Interpreter, RunMetrics, RunRequest, RunResult,
};
pub use terminal_panel::TerminalPanel;
pub use terminal_view::TerminalView;
pub use worker::{FromWorkerMsg, ToWorkerMsg, Worker};
