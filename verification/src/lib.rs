pub mod api;
pub mod grouping;
pub mod markup;
pub mod now_playing;
pub mod pages;
pub mod rate;
pub mod seqs;
pub mod settings_context;
pub mod sorting;
pub mod sse;
pub mod text;
pub mod theme;
pub mod url;
