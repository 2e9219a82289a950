//! What holds of the answers and what they are made of as a whole.

pub mod answers;
pub mod chats;
pub mod evidence;
pub mod findings;
pub mod measures;
pub mod overviews;
pub mod places;
pub mod profiles;
pub mod prompting;
pub mod provisions;
pub mod ranking;
pub mod readings;
pub mod records;
pub mod reports;
pub mod runs;
pub mod searches;
pub mod servers;
pub mod stages;
pub mod words;
