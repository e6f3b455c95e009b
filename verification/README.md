# qddxp

A small card-secret shop: buyers order a product, pay through ePay or official WeChat
Pay Native, and read the delivered content with their order password; an administrator
stocks inventory and manages products from a back office.

- `src/` is the verified library (Verus): configuration checks, order validation and
  creation, the payment ledger (confirmation, expiry, publication of payment entries)
  with its laws, ePay signing and notification handling, WeChat Pay request signing,
  signature checks and notification decryption (stated over named results of the RSA,
  SHA-256, Base64 and AES-GCM crates, which are trusted), the fixed-window limit on
  order creation and client-address resolution, back-office checks, CAPTCHA answers and
  Telegram message texts.
- `app/` is the server around it: HTTP routes, database access, the background expiry
  workers, outbound HTTP and Telegram calls, and CAPTCHA image drawing.
- `tests/` exercises the library on concrete values.
