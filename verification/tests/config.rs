use add_cli::config::find_project_config;
use add_cli::detect::DirListing;

fn dir(files: &[&str]) -> DirListing {
    DirListing { files: files.iter().map(|f| f.to_string()).collect(), package_json: None }
}

#[test]
fn project_config_walks_up() {
    // a/b below the directory that holds .addrc.toml
    let levels = vec![dir(&[]), dir(&[]), dir(&[".addrc.toml"])];
    assert_eq!(find_project_config(&levels), Some(2));
}

#[test]
fn no_project_config_returns_none() {
    assert_eq!(find_project_config(&vec![dir(&[])]), None);
}
