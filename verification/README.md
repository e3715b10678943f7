# proxmox

A Terraform provider for Proxmox VE: the `proxmox_qemu_vm` and
`proxmox_realm` resources and the `proxmox_version` data source.

The library under `src/` holds the provider's logic, verified with Verus:

- `api/`: API paths, query strings, the retry policy of the client, error
  texts, and the request and response types of the QEMU, realm and version
  endpoints.
- `resources/nodes/`: the VM resource: its schema, reading a configuration
  into a create or update request, disk and network strings (parsing,
  writing, normalising), validation, the state written back after each
  operation, and the decisions of create, read, update, delete and import.
- `resources/access/`, `resources/realm.rs`: the realm resource.
- `data_sources/`: the version data source.
- `provider.rs`: the provider's schema, configuration and validation.
- `text.rs`, `number.rs`, `values.rs`, `schema.rs`: strings, Terraform
  numbers, attribute values and schemas as plain data.

Each operation that talks to Proxmox is split into steps: a library function
says which call to make, and the next one takes what the call returned.
`app/` runs those steps: it makes the HTTP calls, converts between JSON and
the library's types, and serves the provider over Terraform's plugin
protocol.
