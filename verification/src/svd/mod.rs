pub mod access;
pub mod bitrange;
pub mod cpu;
pub mod endian;
pub mod enumeratedvalue;
pub mod enumeratedvalues;
pub mod interrupt;
pub mod usage;
pub mod writeconstraint;
