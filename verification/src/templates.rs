//! The fixed texts of the generated files.
//!
//! Neither text depends on the project: the same bytes are written whatever
//! the project is called. The manifest refers to settings of the environment
//! file as `${NAME}`; those references are left as they are, for the tool
//! that later reads the two files together.

use vstd::prelude::*;
use vstd::string::*;

verus! {

/// Text of the environment file and of its example copy.
///
/// Every line is one `NAME=value` setting, from the first line to the last,
/// and every line ends in a line break.
pub const ENV_TEMPLATE: &'static str = r#"ADMIN_USERNAME=test@gmail.com
ADMIN_PASSWORD=test_admin
ADMIN_EMAIL=test@gmail.com
SOFTWARE_PASSWORD=sfgsfhg
SOFTWARE_VERSION_TAG=latest
DOMAIN=your.domain.com
EMAIL_FROM=sender@email.com
TEST_URL=http://172.17.0.1:8055/admin/login
EXTENSIONS_AUTO_RELOAD=true
CORS_ENABLED=true
CORS_ORIGIN=true
"#;

/// Text of the orchestration manifest: the services `database`, `cache` and
/// `directus`, joined by the network `directus`.
///
/// It opens with an empty line, which a reader of YAML passes over, and
/// closes with the network.
pub const COMPOSE_TEMPLATE: &'static str = r#"
version: "3.3"
services:
  database:
    image: elestio/postgres:15
    restart: always
    volumes:
      - ./data/database:/var/lib/postgresql15/data
    networks:
      - directus
    environment:
      POSTGRES_USER: "directus"
      POSTGRES_PASSWORD: ${SOFTWARE_PASSWORD}
      POSTGRES_DB: "directus"
      PGDATA: /var/lib/postgresql15/data/db_data
  cache:
    image: redis:6
    restart: always
    networks:
      - directus
  directus:
    restart: always
    image: elestio/directus:${SOFTWARE_VERSION_TAG}
    ports:
      - 8055:8055
    user: 0:0
    volumes:
      - ./uploads:/directus/uploads
      - ./extensions:/directus/extensions
    networks:
      - directus
    depends_on:
      - cache
      - database
    environment:
      KEY: ${SOFTWARE_PASSWORD}
      SECRET: ${SOFTWARE_PASSWORD}
      PUBLIC_URL: https://${DOMAIN}
      DB_CLIENT: "pg"
      DB_HOST: "database"
      DB_PORT: "5432"
      DB_DATABASE: "directus"
      DB_USER: "directus"
      DB_PASSWORD: ${SOFTWARE_PASSWORD}
      EMAIL_FROM: ${EMAIL_FROM}
      EMAIL_TRANSPORT: "smtp"
      EMAIL_SMTP_HOST: "172.17.0.1"
      EMAIL_SMTP_PORT: 25
      EMAIL_SMTP_SECURE: "false"
      EMAIL_SMTP_IGNORE_TLS: "true"
      CACHE_ENABLED: "true"
      CACHE_STORE: "redis"
      CACHE_REDIS: "redis://cache:6379"
      REDIS: "redis://cache:6379"
      ADMIN_EMAIL: ${ADMIN_EMAIL}
      ADMIN_PASSWORD: ${ADMIN_PASSWORD}
      CACHE_AUTO_PURGE: "true"
      NODE_TLS_REJECT_UNAUTHORIZED: 0
      EXTENSIONS_AUTO_RELOAD: "true"
      CHOKIDAR_USEPOLLING: "true"
      CORS_ENABLED: "true"
      CORS_ORIGIN: "true"
networks:
  directus:
"#;

/// The environment text is 295 characters long, opens with its first
/// setting and closes with the line break after its last.
pub proof fn lemma_env_template_frame()
    ensures
        ENV_TEMPLATE@.len() == 295,
        ENV_TEMPLATE@.subrange(0, 30) == "ADMIN_USERNAME=test@gmail.com\n"@,
        ENV_TEMPLATE@.subrange(278, 295) == "CORS_ORIGIN=true\n"@,
{
    // The characters of a literal are known only where the literal itself
    // is revealed, so the text stands here once more.
    reveal_strlit(
        r#"ADMIN_USERNAME=test@gmail.com
ADMIN_PASSWORD=test_admin
ADMIN_EMAIL=test@gmail.com
SOFTWARE_PASSWORD=sfgsfhg
SOFTWARE_VERSION_TAG=latest
DOMAIN=your.domain.com
EMAIL_FROM=sender@email.com
TEST_URL=http://172.17.0.1:8055/admin/login
EXTENSIONS_AUTO_RELOAD=true
CORS_ENABLED=true
CORS_ORIGIN=true
"#,
    );
    reveal_strlit("ADMIN_USERNAME=test@gmail.com\n");
    reveal_strlit("CORS_ORIGIN=true\n");
    assert(ENV_TEMPLATE@.subrange(0, 30) =~= "ADMIN_USERNAME=test@gmail.com\n"@);
    assert(ENV_TEMPLATE@.subrange(278, 295) =~= "CORS_ORIGIN=true\n"@);
}

/// The manifest is 1630 characters long, opens with an empty line and the
/// version, and closes with the network.
pub proof fn lemma_compose_template_frame()
    ensures
        COMPOSE_TEMPLATE@.len() == 1630,
        COMPOSE_TEMPLATE@.subrange(0, 16) == "\nversion: \"3.3\"\n"@,
        COMPOSE_TEMPLATE@.subrange(1608, 1630) == "networks:\n  directus:\n"@,
{
    // As above: the text stands here once more to be revealed.
    reveal_strlit(
        r#"
version: "3.3"
services:
  database:
    image: elestio/postgres:15
    restart: always
    volumes:
      - ./data/database:/var/lib/postgresql15/data
    networks:
      - directus
    environment:
      POSTGRES_USER: "directus"
      POSTGRES_PASSWORD: ${SOFTWARE_PASSWORD}
      POSTGRES_DB: "directus"
      PGDATA: /var/lib/postgresql15/data/db_data
  cache:
    image: redis:6
    restart: always
    networks:
      - directus
  directus:
    restart: always
    image: elestio/directus:${SOFTWARE_VERSION_TAG}
    ports:
      - 8055:8055
    user: 0:0
    volumes:
      - ./uploads:/directus/uploads
      - ./extensions:/directus/extensions
    networks:
      - directus
    depends_on:
      - cache
      - database
    environment:
      KEY: ${SOFTWARE_PASSWORD}
      SECRET: ${SOFTWARE_PASSWORD}
      PUBLIC_URL: https://${DOMAIN}
      DB_CLIENT: "pg"
      DB_HOST: "database"
      DB_PORT: "5432"
      DB_DATABASE: "directus"
      DB_USER: "directus"
      DB_PASSWORD: ${SOFTWARE_PASSWORD}
      EMAIL_FROM: ${EMAIL_FROM}
      EMAIL_TRANSPORT: "smtp"
      EMAIL_SMTP_HOST: "172.17.0.1"
      EMAIL_SMTP_PORT: 25
      EMAIL_SMTP_SECURE: "false"
      EMAIL_SMTP_IGNORE_TLS: "true"
      CACHE_ENABLED: "true"
      CACHE_STORE: "redis"
      CACHE_REDIS: "redis://cache:6379"
      REDIS: "redis://cache:6379"
      ADMIN_EMAIL: ${ADMIN_EMAIL}
      ADMIN_PASSWORD: ${ADMIN_PASSWORD}
      CACHE_AUTO_PURGE: "true"
      NODE_TLS_REJECT_UNAUTHORIZED: 0
      EXTENSIONS_AUTO_RELOAD: "true"
      CHOKIDAR_USEPOLLING: "true"
      CORS_ENABLED: "true"
      CORS_ORIGIN: "true"
networks:
  directus:
"#,
    );
    reveal_strlit("\nversion: \"3.3\"\n");
    reveal_strlit("networks:\n  directus:\n");
    assert(COMPOSE_TEMPLATE@.subrange(0, 16) =~= "\nversion: \"3.3\"\n"@);
    assert(COMPOSE_TEMPLATE@.subrange(1608, 1630) =~= "networks:\n  directus:\n"@);
}

} // verus!
