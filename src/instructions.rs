mod arithmetic;
mod bitwise;
mod control;
mod exchange;
mod loads;
mod stack;
