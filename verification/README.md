# membership_registry

The backend of a membership registry: members, roles and role memberships,
applications for roles, e-mail notifications, and the identity-provider
accounts (Keycloak, Auth0 or Ory) that members log in with.

The decisions of the backend form a library whose behaviour is stated in
`requires` / `ensures` contracts and proved with Verus:

- `src/role_membership.rs`, `src/application.rs`, `src/accounts.rs`,
  `src/audit.rs`, `src/provisioning.rs`: the multi-step operations as state
  machines (state and outcome in, next state out), with their ordering rules
  proved as laws — a membership is written only after every linked
  identity-provider account carries the role, an audit record only after the
  change it records, a decided application is final, the last linked account
  is never unlinked.
- `src/identity.rs`, `src/jwt.rs`, `src/idp_requests.rs`, `src/ory.rs`: the
  identity-provider side — subject ids, URLs, the admin-token cache, role
  lookups, bearer-token checking, and how answers are read.
- `src/notification.rs`, `src/text.rs`: template placeholders, HTML cleaning
  and template rendering.
- `src/config.rs`, `src/query.rs`, `src/repository.rs`, `src/member.rs`,
  `src/access.rs`, `src/error.rs`, `src/model.rs`: start-up choices, query
  arguments, stored names, the CSV export row, the access rules of the HTTP
  middleware, and the error mapping.

Calls into outside crates (`regex`, `ammonia`, `uuid`, `jsonwebtoken`,
`serde_json`) stand behind small trusted wrappers whose contracts say what
the crates' sources show.

`app/` is the program around the library: configuration, the PostgreSQL
repositories, the Keycloak and e-mail clients, the HTTP server and the
scheduled jobs. It performs the I/O that each state machine asks for and
hands the outcome back.

`tests/` runs the library on concrete values.
