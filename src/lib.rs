//! Native backend of a desktop shell: a greeting command and the policy that
//! locates a packaged audio asset among an ordered list of candidate places.
pub mod greeting;
pub mod resolver;
