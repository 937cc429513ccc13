use create_directus_app::templates::{COMPOSE_TEMPLATE, ENV_TEMPLATE};

fn joined(lines: &[&str]) -> String {
    let mut text = String::new();
    for line in lines {
        text.push_str(line);
    }
    text
}

#[test]
fn env_template_has_the_fixed_settings_byte_for_byte() {
    let expected = joined(&[
        "ADMIN_USERNAME=test@gmail.com\n",
        "ADMIN_PASSWORD=test_admin\n",
        "ADMIN_EMAIL=test@gmail.com\n",
        "SOFTWARE_PASSWORD=sfgsfhg\n",
        "SOFTWARE_VERSION_TAG=latest\n",
        "DOMAIN=your.domain.com\n",
        "EMAIL_FROM=sender@email.com\n",
        "TEST_URL=http://172.17.0.1:8055/admin/login\n",
        "EXTENSIONS_AUTO_RELOAD=true\n",
        "CORS_ENABLED=true\n",
        "CORS_ORIGIN=true\n",
    ]);
    assert_eq!(ENV_TEMPLATE, expected);
    assert_eq!(ENV_TEMPLATE.len(), 295);
}

#[test]
fn env_template_opens_with_its_first_setting_and_ends_with_its_last() {
    assert!(ENV_TEMPLATE.starts_with("ADMIN_USERNAME=test@gmail.com\n"));
    assert!(ENV_TEMPLATE.ends_with("CORS_ORIGIN=true\n"));
    assert_eq!(ENV_TEMPLATE.lines().next(), Some("ADMIN_USERNAME=test@gmail.com"));
}

#[test]
fn env_template_has_no_empty_line() {
    assert_eq!(ENV_TEMPLATE.lines().count(), 11);
    assert!(ENV_TEMPLATE.lines().all(|line| !line.is_empty()));
    assert!(ENV_TEMPLATE.lines().all(|line| line.split('=').count() == 2));
}

#[test]
fn env_template_holds_eleven_settings_in_order() {
    let keys: Vec<&str> = ENV_TEMPLATE
        .lines()
        .filter(|line| !line.is_empty())
        .map(|line| line.split('=').next().unwrap())
        .collect();
    assert_eq!(
        keys,
        vec![
            "ADMIN_USERNAME",
            "ADMIN_PASSWORD",
            "ADMIN_EMAIL",
            "SOFTWARE_PASSWORD",
            "SOFTWARE_VERSION_TAG",
            "DOMAIN",
            "EMAIL_FROM",
            "TEST_URL",
            "EXTENSIONS_AUTO_RELOAD",
            "CORS_ENABLED",
            "CORS_ORIGIN",
        ]
    );
}

#[test]
fn env_template_has_the_version_tag_line() {
    assert!(ENV_TEMPLATE.lines().any(|line| line == "SOFTWARE_VERSION_TAG=latest"));
}

#[test]
fn compose_template_is_the_fixed_manifest_byte_for_byte() {
    let expected = joined(&[
        "\n",
        "version: \"3.3\"\n",
        "services:\n",
        "  database:\n",
        "    image: elestio/postgres:15\n",
        "    restart: always\n",
        "    volumes:\n",
        "      - ./data/database:/var/lib/postgresql15/data\n",
        "    networks:\n",
        "      - directus\n",
        "    environment:\n",
        "      POSTGRES_USER: \"directus\"\n",
        "      POSTGRES_PASSWORD: ${SOFTWARE_PASSWORD}\n",
        "      POSTGRES_DB: \"directus\"\n",
        "      PGDATA: /var/lib/postgresql15/data/db_data\n",
        "  cache:\n",
        "    image: redis:6\n",
        "    restart: always\n",
        "    networks:\n",
        "      - directus\n",
        "  directus:\n",
        "    restart: always\n",
        "    image: elestio/directus:${SOFTWARE_VERSION_TAG}\n",
        "    ports:\n",
        "      - 8055:8055\n",
        "    user: 0:0\n",
        "    volumes:\n",
        "      - ./uploads:/directus/uploads\n",
        "      - ./extensions:/directus/extensions\n",
        "    networks:\n",
        "      - directus\n",
        "    depends_on:\n",
        "      - cache\n",
        "      - database\n",
        "    environment:\n",
        "      KEY: ${SOFTWARE_PASSWORD}\n",
        "      SECRET: ${SOFTWARE_PASSWORD}\n",
        "      PUBLIC_URL: https://${DOMAIN}\n",
        "      DB_CLIENT: \"pg\"\n",
        "      DB_HOST: \"database\"\n",
        "      DB_PORT: \"5432\"\n",
        "      DB_DATABASE: \"directus\"\n",
        "      DB_USER: \"directus\"\n",
        "      DB_PASSWORD: ${SOFTWARE_PASSWORD}\n",
        "      EMAIL_FROM: ${EMAIL_FROM}\n",
        "      EMAIL_TRANSPORT: \"smtp\"\n",
        "      EMAIL_SMTP_HOST: \"172.17.0.1\"\n",
        "      EMAIL_SMTP_PORT: 25\n",
        "      EMAIL_SMTP_SECURE: \"false\"\n",
        "      EMAIL_SMTP_IGNORE_TLS: \"true\"\n",
        "      CACHE_ENABLED: \"true\"\n",
        "      CACHE_STORE: \"redis\"\n",
        "      CACHE_REDIS: \"redis://cache:6379\"\n",
        "      REDIS: \"redis://cache:6379\"\n",
        "      ADMIN_EMAIL: ${ADMIN_EMAIL}\n",
        "      ADMIN_PASSWORD: ${ADMIN_PASSWORD}\n",
        "      CACHE_AUTO_PURGE: \"true\"\n",
        "      NODE_TLS_REJECT_UNAUTHORIZED: 0\n",
        "      EXTENSIONS_AUTO_RELOAD: \"true\"\n",
        "      CHOKIDAR_USEPOLLING: \"true\"\n",
        "      CORS_ENABLED: \"true\"\n",
        "      CORS_ORIGIN: \"true\"\n",
        "networks:\n",
        "  directus:\n",
    ]);
    assert_eq!(COMPOSE_TEMPLATE, expected);
    assert_eq!(COMPOSE_TEMPLATE.len(), 1630);
}

#[test]
fn compose_template_has_the_directus_image_line() {
    assert!(COMPOSE_TEMPLATE
        .lines()
        .any(|line| line == "    image: elestio/directus:${SOFTWARE_VERSION_TAG}"));
    assert!(COMPOSE_TEMPLATE
        .lines()
        .any(|line| line.trim() == "image: elestio/directus:${SOFTWARE_VERSION_TAG}"));
}

#[test]
fn compose_template_names_three_services_and_one_network() {
    let top_level: Vec<&str> = COMPOSE_TEMPLATE
        .lines()
        .filter(|line| line.starts_with("  ") && !line.starts_with("   ") && line.ends_with(':'))
        .map(|line| line.trim())
        .collect();
    assert_eq!(top_level, vec!["database:", "cache:", "directus:", "directus:"]);
    assert!(COMPOSE_TEMPLATE.contains("\nservices:\n  database:\n"));
    assert!(COMPOSE_TEMPLATE.ends_with("networks:\n  directus:\n"));
}

#[test]
fn compose_template_is_made_of_three_blocks() {
    let blocks: Vec<&str> = COMPOSE_TEMPLATE
        .lines()
        .filter(|line| !line.is_empty() && !line.starts_with(' '))
        .collect();
    assert_eq!(blocks, vec!["version: \"3.3\"", "services:", "networks:"]);
    assert!(COMPOSE_TEMPLATE.lines().all(|line| line != "."));
    assert_eq!(COMPOSE_TEMPLATE.lines().last(), Some("  directus:"));
    assert!(COMPOSE_TEMPLATE.starts_with("\nversion: \"3.3\"\n"));
}

#[test]
fn compose_template_leaves_its_references_unresolved() {
    let mut names: Vec<String> = Vec::new();
    let mut rest = COMPOSE_TEMPLATE;
    while let Some(start) = rest.find("${") {
        let tail = &rest[start + 2..];
        let end = tail.find('}').unwrap();
        names.push(tail[..end].to_string());
        rest = &tail[end + 1..];
    }
    assert_eq!(names.len(), 9);
    for name in &names {
        let setting = format!("{}=", name);
        assert!(
            ENV_TEMPLATE.lines().any(|line| line.starts_with(&setting)),
            "{} is not a setting",
            name
        );
    }
}

#[test]
fn templates_have_their_stated_frames() {
    assert_eq!(ENV_TEMPLATE.chars().count(), 295);
    assert_eq!(&ENV_TEMPLATE[..30], "ADMIN_USERNAME=test@gmail.com\n");
    assert_eq!(&ENV_TEMPLATE[278..], "CORS_ORIGIN=true\n");
    assert_eq!(COMPOSE_TEMPLATE.chars().count(), 1630);
    assert_eq!(&COMPOSE_TEMPLATE[..16], "\nversion: \"3.3\"\n");
    assert_eq!(&COMPOSE_TEMPLATE[1608..], "networks:\n  directus:\n");
}
