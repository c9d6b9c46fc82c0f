pub mod templar;
