use hive_agent::containment::{check_command, check_path};

#[test]
fn blocks_dockerfile() {
    assert!(check_path("Dockerfile").is_some());
    assert!(check_path("./Dockerfile").is_some());
    assert!(check_path("/home/hive/Dockerfile").is_some());
}

#[test]
fn blocks_docker_compose() {
    assert!(check_path("docker-compose.yml").is_some());
    assert!(check_path("./docker-compose.yml").is_some());
}

#[test]
fn blocks_launch_sh() {
    assert!(check_path("launch.sh").is_some());
}

#[test]
fn allows_normal_files() {
    assert!(check_path("src/main.rs").is_none());
    assert!(check_path("src/agent/mod.rs").is_none());
    assert!(check_path(".env").is_none());
    assert!(check_path("Cargo.toml").is_none());
}

#[test]
fn blocks_docker_commands() {
    assert!(check_command("docker exec -it hive bash").is_some());
    assert!(check_command("docker-compose down").is_some());
    assert!(check_command("nsenter --target 1 --mount").is_some());
}

#[test]
fn allows_normal_commands() {
    assert!(check_command("ls -la").is_none());
    assert!(check_command("cat src/main.rs").is_none());
    assert!(check_command("cargo build").is_none());
    assert!(check_command("echo hello").is_none());
}

#[test]
fn blocks_shell_writes_to_containment() {
    assert!(check_command("echo bad > Dockerfile").is_some());
    assert!(check_command("rm docker-compose.yml").is_some());
    assert!(check_command("sed -i 's/old/new/' launch.sh").is_some());
}

#[test]
fn check_path_names_the_protected_file() {
    assert_eq!(check_path("/home/hive/Dockerfile"), Some("Dockerfile"));
    assert_eq!(check_path("./docker-compose.yml"), Some("docker-compose.yml"));
}

#[test]
fn check_command_is_case_insensitive() {
    assert!(check_command("DOCKER EXEC -it hive bash").is_some());
}

#[test]
fn sed_in_place_is_blocked_only_on_boundary_files() {
    assert!(check_command("sed -i 's/a/b/' notes.txt").is_none());
    assert_eq!(
        check_command("sed -i 's/old/new/' launch.sh").as_deref(),
        Some("Command would modify containment file 'launch.sh'")
    );
    assert_eq!(
        check_command("sed -i 's/x/y/' Dockerfile").as_deref(),
        Some("Command would modify containment file 'Dockerfile'")
    );
}
