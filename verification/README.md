# mousuo

The verified core of MouSuo, a small cross-border storefront (products,
orders, Stripe payments, an admin panel) served over SurrealDB.

- `src/` — the library, checked by Verus: money formatting, the order state
  machine, slug, redirect and query-string handling, record ids and the text
  and parameters of every database query, and the decisions of the checkout,
  payment-webhook and admin handlers.
- `tests/` — tests of the library on concrete values.
- `app/` — the server process around it: the SurrealDB connection that runs
  the queries, the Stripe calls, schema set-up and seeding, and the bodies of
  the form and webhook handlers (checkout, the Stripe webhook, the admin
  order-status and product save / on-off / delete posts, and the sign-in
  guard of the order pages). The page handlers and their markup belong to the
  web framework's view layer and are not part of this crate; the values they
  show (money text, badges, banners, links, paging) come from `src/`.
