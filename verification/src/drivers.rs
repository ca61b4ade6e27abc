pub mod first_person_view;
pub mod fpv;
pub mod orbit;
pub mod pinned;
