//! A small library behind a command-line browser launcher: it classifies a
//! raw command-line argument as a bookmark alias, a literal URL, a search
//! phrase or a video search, and canonicalizes the result into a URL string
//! that can be handed to the host's "open browser" command.

pub mod browser_command_handler;
pub mod text;
pub mod url_handler;
pub mod url_input;
pub mod url_macro_handler;

pub use url_handler::get_url_from_raw_match;
pub use url_handler::url_string_for_input;
pub use url_input::add_http_prefix_to_url;
pub use url_input::turn_to_search_url;
pub use url_input::turn_to_yt_search_url;
pub use url_input::validate_and_fix_url_string;
pub use url_input::UrlInputType;
pub use url_macro_handler::get_view_lines;
pub use url_macro_handler::SpecialUrl;
pub use browser_command_handler::ArgUtil;
pub use browser_command_handler::get_path_of_browser_bin_by_name;
