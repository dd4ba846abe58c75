pub mod argument_flag_parser;
