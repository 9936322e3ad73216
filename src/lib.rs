// Tag lines of HTTP Live Streaming playlists: the attribute-list tokenizer, the
// grammar of attribute values, and each tag, read and written with contracts that
// say exactly which lines are accepted and what is written back.

// Characters and decimal digits.
pub mod text;
// The error every parser returns.
pub mod error;
// Quoted strings, line text, decimal integers and hexadecimal sequences.
pub mod value;
// Decimal numbers with a fraction, durations and resolutions.
pub mod decimal;
// Splitting `KEY=VALUE,...` lists and writing them back.
pub mod pairs;
// Enumerated values and protocol versions.
pub mod tokens;
// How each kind of attribute value is read and written inside a list.
pub mod attr;
// Tags of one media segment.
pub mod segment;
// Tags of master playlists.
pub mod master;
// Tags that may stand in any playlist.
pub mod basic;
// Tags of media playlists.
pub mod media_playlist;
// Every tag: dispatch on a line, classification, and the laws over all tags.
pub mod tag;
