//! Live state of a status bar: an ordered set of independently updating components, loaded
//! from a configuration tree, with polling that reports exactly the components that changed.

pub mod bar;
pub mod components;
pub mod config;
pub mod event;
pub mod pipeline;

pub use crate::config::{Background, Color};

use vstd::prelude::*;
use vstd::string::*;

verus! {

/// The places where a configuration file named `name` is looked for, in order:
/// `{config}/{name}.{ext}`, `{home}/.{name}.{ext}` and `/etc/{name}/{name}.{ext}`.
pub fn config_paths(name: &str, config_dir: &str, home_dir: &str, extension: &str) -> (paths: Vec<
    String,
>)
    ensures
        paths@.len() == 3,
        paths@[0]@ == config_dir@ + "/"@ + name@ + "."@ + extension@,
        paths@[1]@ == home_dir@ + "/."@ + name@ + "."@ + extension@,
        paths@[2]@ == "/etc/"@ + name@ + "/"@ + name@ + "."@ + extension@,
{
    let mut user = String::from_str(config_dir);
    user.append("/");
    user.append(name);
    user.append(".");
    user.append(extension);
    let mut home = String::from_str(home_dir);
    home.append("/.");
    home.append(name);
    home.append(".");
    home.append(extension);
    let mut system = String::from_str("/etc/");
    system.append(name);
    system.append("/");
    system.append(name);
    system.append(".");
    system.append(extension);
    let mut paths: Vec<String> = Vec::new();
    paths.push(user);
    paths.push(home);
    paths.push(system);
    paths
}

} // verus!
