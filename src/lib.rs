//! Reads averaged power and voltage from a TED energy monitor's export API:
//! the request URL, the checks on the XML body, and the ways a run can fail.
pub mod error;
pub mod extract;
pub mod url;
